use vstd::prelude::*;

verus! {

/// Every failure that a request handler reports to its caller.
///
/// Both variants are answered with status 400; the body carries the
/// variant's fields as diagnostic text only.
#[derive(Debug, Clone, PartialEq, Eq)]
pub enum AppError {
    /// A sampling, upstream or I/O failure, described by a message.
    SomeError { msg: String },
    /// The `q` parameter has `actual` characters, outside `min ..= max`.
    ValidationError { min: usize, max: usize, actual: usize },
}

/// The status code with which every error is answered (Bad Request).
pub const ERROR_STATUS: u16 = 400;

impl AppError {
    /// An error that carries the text of a failure reported elsewhere
    /// (an outbound call, the environment, a file).
    pub fn from_message(msg: String) -> (r: AppError)
        ensures
            r == (AppError::SomeError { msg }),
    {
        AppError::SomeError { msg }
    }

    /// The HTTP status with which this error is answered.
    pub fn status(&self) -> (r: u16)
        ensures
            r == ERROR_STATUS,
    {
        ERROR_STATUS
    }
}

} // verus!
