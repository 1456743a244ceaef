use vstd::prelude::*;

verus! {

/// The errors reported by handles and volumes.
#[derive(Debug, Clone, Copy, PartialEq, Eq, Structural)]
pub enum Error {
    /// A write was attempted on a handle that was not opened for writing.
    AccessModeViolation,
    /// The handle or volume is not open.
    NotOpen,
    /// The handle or volume is already open.
    AlreadyOpen,
    /// A seek would move the offset before the start of the source, or to an
    /// offset that does not fit in `usize`.
    SeekOutOfRange,
    /// An argument has a value that the operation does not know.
    InvalidArgument,
    /// No entry or record exists for the given index or path.
    NotFound,
}

/// The text that describes an error.
pub open spec fn message_text(e: Error) -> Seq<char> {
    match e {
        Error::AccessModeViolation => "file is not open for writing"@,
        Error::NotOpen => "not open"@,
        Error::AlreadyOpen => "already open"@,
        Error::SeekOutOfRange => "seek offset out of range"@,
        Error::InvalidArgument => "invalid argument"@,
        Error::NotFound => "not found"@,
    }
}

impl Error {
    /// A human-readable description of the error.
    pub fn message(&self) -> (r: &'static str)
        ensures
            r@ == message_text(*self),
    {
        match self {
            Error::AccessModeViolation => "file is not open for writing",
            Error::NotOpen => "not open",
            Error::AlreadyOpen => "already open",
            Error::SeekOutOfRange => "seek offset out of range",
            Error::InvalidArgument => "invalid argument",
            Error::NotFound => "not found",
        }
    }
}

} // verus!
