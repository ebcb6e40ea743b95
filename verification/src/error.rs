use vstd::prelude::*;

verus! {

/// The error domain for GPIO operations.
///
/// Every failure of this library is surfaced as one of these variants;
/// no operation retries silently.
#[derive(Debug)]
pub enum Error {
    /// An OS-level failure while opening, reading or writing a file or a
    /// readiness-multiplexer handle.  Carries the raw OS error number,
    /// or 0 when the underlying error had none to offer.
    Io(i32),
    /// An attribute file held content that does not parse as the expected
    /// enumerated value.  Carries the offending content for diagnostics.
    Unexpected(String),
    /// A path does not name a GPIO attribute directory.  Carries the path.
    InvalidPath(String),
    /// The requested operation is not available on the current platform.
    Unsupported(String),
}

impl Error {
    /// True when the error is an OS-level failure.
    pub fn is_io(&self) -> (r: bool)
        ensures
            r == (self is Io),
    {
        match self {
            Error::Io(_) => true,
            _ => false,
        }
    }
}

} // verus!
