use vstd::prelude::*;

verus! {

/// Why opening or reading the input failed.
#[derive(Debug, Clone, PartialEq, Eq)]
pub enum FileStatsError {
    /// The path does not name an existing entry.
    NotFound,
    /// The process may not open or read the target.
    PermissionDenied,
    /// Any other I/O failure, with the system's own message.
    Other { msg: String },
}

impl FileStatsError {
    /// The text shown to a user for this error.
    pub open spec fn message_spec(&self) -> Seq<char> {
        match self {
            FileStatsError::NotFound => "File not found"@,
            FileStatsError::PermissionDenied => "Access to file denied"@,
            FileStatsError::Other { msg } => msg@,
        }
    }

    /// The text shown to a user for this error.
    pub fn message(&self) -> (r: String)
        ensures
            r@ == self.message_spec(),
    {
        match self {
            FileStatsError::NotFound => "File not found".to_owned(),
            FileStatsError::PermissionDenied => "Access to file denied".to_owned(),
            FileStatsError::Other { msg } => msg.clone(),
        }
    }
}

} // verus!
