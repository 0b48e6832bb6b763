use vstd::prelude::*;

verus! {

/// The kind of an operating-system error, as far as the messages tell kinds apart.
#[derive(Debug, Clone, Copy, PartialEq, Eq)]
pub enum ErrorKind {
    NotFound,
    PermissionDenied,
    Other,
}

/// An operating-system error met while opening, inspecting, reading or
/// writing the file: its kind and the system's own description of it.
#[derive(Debug, Clone, PartialEq, Eq)]
pub struct OsError {
    pub kind: ErrorKind,
    pub description: String,
}

/// How a run on one file ends.
#[derive(Debug, Clone, PartialEq, Eq)]
pub enum Outcome {
    /// The file is empty or already ends with a line feed.
    AlreadyValid,
    /// A line feed was appended.
    Fixed,
    /// The line feed is missing and check-only mode left the file alone.
    NeedsFix,
    /// The path names something other than a regular file.
    NotRegularFile,
    /// The content is not valid UTF-8.
    NotUtf8,
    /// The content uses CRLF line endings.
    ContainsCrlf,
    /// An operation on the file failed.
    IoError(OsError),
}

/// Exit status of a successful run.
pub const EXIT_SUCCESS: u8 = 0;

/// Exit status of a run that met an error.
pub const EXIT_FAILURE: u8 = 1;

/// Exit status of a check-only run on a file that lacks its final line feed.
pub const EXIT_PLEASE_FIX: u8 = 3;

/// The process exit status that reports an outcome.
pub open spec fn exit_status(o: Outcome) -> u8 {
    match o {
        Outcome::AlreadyValid | Outcome::Fixed => EXIT_SUCCESS,
        Outcome::NeedsFix => EXIT_PLEASE_FIX,
        _ => EXIT_FAILURE,
    }
}

impl Outcome {
    /// True for the outcomes of a successful run.
    pub open spec fn is_success(self) -> bool {
        self is AlreadyValid || self is Fixed
    }

    /// The process exit status that reports this outcome.
    pub fn exit_code(&self) -> (r: u8)
        ensures
            r == exit_status(*self),
    {
        match self {
            Outcome::AlreadyValid | Outcome::Fixed => EXIT_SUCCESS,
            Outcome::NeedsFix => EXIT_PLEASE_FIX,
            _ => EXIT_FAILURE,
        }
    }
}

} // verus!
