use unicode_segmentation::UnicodeSegmentation;
use vstd::prelude::*;
use vstd::utf8::encode_utf8;

use crate::file_stats_error::FileStatsError;

verus! {

/// Number of bytes in the UTF-8 encoding of `s`.
pub open spec fn byte_len(s: Seq<char>) -> nat {
    encode_utf8(s).len()
}

/// Number of extended grapheme clusters (user-perceived characters) in `s`.
pub uninterp spec fn grapheme_count(s: Seq<char>) -> nat;

/// Number of words in `s`, as `words_count::count` delimits them.
pub uninterp spec fn word_count(s: Seq<char>) -> nat;

/// Final component of the path written `path`, or the empty text where it has none.
pub uninterp spec fn file_name_of(path: Seq<char>) -> Seq<char>;

/// Bytes over all of `ls`.
pub open spec fn line_byte_total(ls: Seq<Seq<char>>) -> nat
    decreases ls.len(),
{
    if ls.len() == 0 {
        0
    } else {
        line_byte_total(ls.drop_last()) + byte_len(ls.last())
    }
}

/// Grapheme clusters over all of `ls`.
pub open spec fn character_total_of(ls: Seq<Seq<char>>) -> nat
    decreases ls.len(),
{
    if ls.len() == 0 {
        0
    } else {
        character_total_of(ls.drop_last()) + grapheme_count(ls.last())
    }
}

/// Words over all of `ls`.
pub open spec fn word_total_of(ls: Seq<Seq<char>>) -> nat
    decreases ls.len(),
{
    if ls.len() == 0 {
        0
    } else {
        word_total_of(ls.drop_last()) + word_count(ls.last())
    }
}

/// Running totals over the lines of one input, with the input's display name.
pub struct FileStats {
    bytes: usize,
    characters: usize,
    words: usize,
    lines: usize,
    filename: String,
    read: Ghost<Seq<Seq<char>>>,
}

impl FileStats {
    /// The lines taken in so far, terminators included, in order.
    pub closed spec fn lines_read(&self) -> Seq<Seq<char>> {
        self.read@
    }

    pub closed spec fn byte_total(&self) -> nat {
        self.bytes as nat
    }

    pub closed spec fn character_total(&self) -> nat {
        self.characters as nat
    }

    pub closed spec fn word_total(&self) -> nat {
        self.words as nat
    }

    pub closed spec fn line_total(&self) -> nat {
        self.lines as nat
    }

    /// The display name: empty for standard input, else the file's base name.
    pub closed spec fn name(&self) -> Seq<char> {
        self.filename@
    }

    /// Each total is that of the lines read so far.
    pub open spec fn wf(&self) -> bool {
        &&& self.byte_total() == line_byte_total(self.lines_read())
        &&& self.character_total() == character_total_of(self.lines_read())
        &&& self.word_total() == word_total_of(self.lines_read())
        &&& self.line_total() == self.lines_read().len()
    }

    /// Whether taking in `line` keeps every total within `usize`.
    pub open spec fn fits(&self, line: Seq<char>) -> bool {
        &&& self.byte_total() + byte_len(line) <= usize::MAX
        &&& self.character_total() + grapheme_count(line) <= usize::MAX
        &&& self.word_total() + word_count(line) <= usize::MAX
        &&& self.line_total() + 1 <= usize::MAX
    }

    /// The message of the error that reports a total too large for `usize`.
    pub open spec fn overflow_message() -> Seq<char> {
        "a total exceeds the largest count this machine can hold"@
    }

    /// Statistics for standard input: nothing read yet, empty display name.
    pub fn new() -> (r: FileStats)
        ensures
            r.wf(),
            r.lines_read() == Seq::<Seq<char>>::empty(),
            r.byte_total() == 0,
            r.character_total() == 0,
            r.word_total() == 0,
            r.line_total() == 0,
            r.name() == Seq::<char>::empty(),
    {
        FileStats {
            words: 0,
            lines: 0,
            filename: String::new(),
            bytes: 0,
            characters: 0,
            read: Ghost(Seq::empty()),
        }
    }
    /// Statistics for the file at `path`, given the outcome of opening it.
    ///
    /// Opening is done by the caller; on failure its error is passed on and no
    /// statistics exist. On success the display name is the path's final component.
    pub fn from(path: &str, opened: Result<(), FileStatsError>) -> (r: Result<
        FileStats,
        FileStatsError,
    >)
        ensures
            match opened {
                Ok(()) => match r {
                    Ok(s) => {
                        &&& s.wf()
                        &&& s.lines_read() == Seq::<Seq<char>>::empty()
                        &&& s.byte_total() == 0
                        &&& s.character_total() == 0
                        &&& s.word_total() == 0
                        &&& s.line_total() == 0
                        &&& s.name() == file_name_of(path@)
                    },
                    Err(_) => false,
                },
                Err(e) => r == Err::<FileStats, FileStatsError>(e),
            },
    {
        match opened {
            Ok(()) => {
                let filename = Self::final_component(path);
                Ok(
                    FileStats {
                        bytes: 0,
                        lines: 0,
                        words: 0,
                        characters: 0,
                        filename,
                        read: Ghost(Seq::empty()),
                    },
                )
            },
            Err(err) => Err(err),
        }
    }

    /// Takes in the outcome of one read of the input.
    ///
    /// `Ok(Some(line))` is a line as read, terminator included: every total grows
    /// by that line's share and `None` says to read on. `Ok(None)` is the end of
    /// the input and `Err(e)` a failed read: both end processing, with the totals
    /// kept as they are. A line whose share would carry a total past `usize::MAX`
    /// ends processing too, with an error and the totals unchanged.
    pub fn process(&mut self, read: Result<Option<String>, FileStatsError>) -> (r: Option<
        Result<(), FileStatsError>,
    >)
        requires
            old(self).wf(),
        ensures
            final(self).wf(),
            final(self).name() == old(self).name(),
            match read {
                Ok(Some(line)) => if old(self).fits(line@) {
                    &&& r is None
                    &&& final(self).lines_read() == old(self).lines_read().push(line@)
                    &&& final(self).byte_total() == old(self).byte_total() + byte_len(line@)
                    &&& final(self).character_total() == old(self).character_total()
                        + grapheme_count(line@)
                    &&& final(self).word_total() == old(self).word_total() + word_count(line@)
                    &&& final(self).line_total() == old(self).line_total() + 1
                } else {
                    &&& r matches Some(Err(FileStatsError::Other { msg })) && msg@
                        == Self::overflow_message()
                    &&& final(self).lines_read() == old(self).lines_read()
                },
                Ok(None) => {
                    &&& r == Some(Ok::<(), FileStatsError>(()))
                    &&& final(self).lines_read() == old(self).lines_read()
                },
                Err(e) => {
                    &&& r == Some(Err::<(), FileStatsError>(e))
                    &&& final(self).lines_read() == old(self).lines_read()
                },
            },
    {
        match read {
            Ok(Some(line)) => {
                let b = Self::count_bytes(line.as_str());
                let c = Self::count_characters(line.as_str());
                let w = Self::count_words(line.as_str());
                if b > usize::MAX - self.bytes || c > usize::MAX - self.characters || w
                    > usize::MAX - self.words || self.lines == usize::MAX {
                    let msg = "a total exceeds the largest count this machine can hold".to_owned();
                    return Some(Err(FileStatsError::Other { msg }));
                }
                let ghost before = self.read@;
                self.bytes = self.bytes + b;
                self.characters = self.characters + c;
                self.words = self.words + w;
                self.lines = self.lines + 1;
                self.read = Ghost(self.read@.push(line@));
                assert(self.read@.drop_last() =~= before);
                None
            },
            Ok(None) => Some(Ok(())),
            Err(e) => Some(Err(e)),
        }
    }

    /// Bytes read so far.
    pub fn get_bytes_count(&self) -> (r: usize)
        ensures
            r == self.byte_total(),
            self.wf() ==> r == line_byte_total(self.lines_read()),
    {
        self.bytes
    }

    /// Grapheme clusters read so far.
    pub fn get_character_count(&self) -> (r: usize)
        ensures
            r == self.character_total(),
            self.wf() ==> r == character_total_of(self.lines_read()),
    {
        self.characters
    }

    /// Lines read so far, a last line without terminator included.
    pub fn get_line_count(&self) -> (r: usize)
        ensures
            r == self.line_total(),
            self.wf() ==> r == self.lines_read().len(),
    {
        self.lines
    }

    /// Words read so far.
    pub fn get_words_count(&self) -> (r: usize)
        ensures
            r == self.word_total(),
            self.wf() ==> r == word_total_of(self.lines_read()),
    {
        self.words
    }

    /// The display name.
    pub fn get_file_name(&self) -> (r: String)
        ensures
            r@ == self.name(),
    {
        self.filename.clone()
    }

    /// Bytes in the UTF-8 encoding of `buf`.
    fn count_bytes(buf: &str) -> (r: usize)
        ensures
            r == byte_len(buf@),
    {
        buf.as_bytes().len()
    }

    /// Relies on `UnicodeSegmentation::graphemes(true)` of unicode-segmentation, counted:
    /// the extended grapheme clusters of `buf`, which depend on its characters alone.
    #[verifier::external_body]
    fn count_characters(buf: &str) -> (r: usize)
        ensures
            r == grapheme_count(buf@),
            buf@.len() == 0 ==> r == 0,
    {
        buf.graphemes(true).count()
    }

    /// Relies on `words_count::count`, its `words` field: the words of `buf`, which
    /// depend on its characters alone.
    #[verifier::external_body]
    fn count_words(buf: &str) -> (r: usize)
        ensures
            r == word_count(buf@),
            buf@.len() == 0 ==> r == 0,
    {
        words_count::count(buf).words
    }

    /// Relies on `std::path::Path::file_name`: the final component of `path`, or the
    /// empty text where the path has none (it is empty, a root, or ends in `..`).
    #[verifier::external_body]
    fn final_component(path: &str) -> (r: String)
        ensures
            r@ == file_name_of(path@),
    {
        match std::path::Path::new(path).file_name().and_then(|n| n.to_str()) {
            Some(n) => n.to_owned(),
            None => String::new(),
        }
    }
}

} // verus!
