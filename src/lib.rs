//! Line, word, character and byte totals over a line-oriented UTF-8 text stream.
//!
//! The accumulator in [`file_stats`] is driven one read at a time: whoever owns the
//! input (a file or standard input) hands each read's outcome to
//! [`FileStats::process`], which updates the totals and says when to stop.

mod file_stats;
mod file_stats_error;

pub use file_stats::{
    byte_len, character_total_of, file_name_of, grapheme_count, line_byte_total, word_count,
    word_total_of, FileStats,
};
pub use file_stats_error::FileStatsError;
