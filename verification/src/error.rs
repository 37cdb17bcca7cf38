//! The error that every operation of the library reports.

use vstd::prelude::*;

verus! {

/// What went wrong.
#[derive(Debug, Clone, Copy, PartialEq, Eq, Structural)]
pub enum ErrorKind {
    /// The caller asked for something that cannot be done.
    InvalidInput,
    /// The peer or the kernel answered with something unacceptable.
    InvalidData,
    /// Less was written than was asked for.
    WriteZero,
    /// Less was read than was needed.
    UnexpectedEof,
    /// The backend refused the request.
    Other,
    /// The operating system failed with this error number.
    Os(i32),
}

/// An error with its message. The message of an operating system error is
/// empty: its text is the platform's.
#[derive(Debug)]
pub struct IoError {
    kind: ErrorKind,
    message: String,
}

/// The mathematical content of an [`IoError`].
pub struct IoErrorView {
    pub kind: ErrorKind,
    pub message: Seq<char>,
}

impl View for IoError {
    type V = IoErrorView;

    closed spec fn view(&self) -> IoErrorView {
        IoErrorView { kind: self.kind, message: self.message@ }
    }
}

/// A result with its value and its error taken by their views.
pub open spec fn viewed<T: View>(result: Result<T, IoError>) -> Result<T::V, IoErrorView> {
    match result {
        Ok(value) => Ok(value@),
        Err(error) => Err(error@),
    }
}

/// The error of kind `kind` that says `message`.
pub open spec fn error_of(kind: ErrorKind, message: Seq<char>) -> IoErrorView {
    IoErrorView { kind, message }
}

/// The error that the operating system reported as `code`.
pub open spec fn os_error(code: i32) -> IoErrorView {
    IoErrorView { kind: ErrorKind::Os(code), message: Seq::empty() }
}

impl IoError {
    /// An error of kind `kind` that says `message`.
    pub fn new(kind: ErrorKind, message: String) -> (error: IoError)
        ensures
            error@ == error_of(kind, message@),
    {
        IoError { kind, message }
    }

    /// The operating system error with number `code`.
    pub fn from_raw_os_error(code: i32) -> (error: IoError)
        ensures
            error@ == os_error(code),
    {
        IoError { kind: ErrorKind::Os(code), message: String::new() }
    }

    /// The kind of the error.
    pub fn kind(&self) -> (kind: ErrorKind)
        ensures
            kind == self@.kind,
    {
        self.kind
    }

    /// The message of the error.
    pub fn message(&self) -> (message: &str)
        ensures
            message@ == self@.message,
    {
        self.message.as_str()
    }
}

/// An error of kind [`ErrorKind::InvalidInput`].
pub fn invalid_input(message: &str) -> (error: IoError)
    ensures
        error@ == error_of(ErrorKind::InvalidInput, message@),
{
    IoError::new(ErrorKind::InvalidInput, message.to_owned())
}

/// An error of kind [`ErrorKind::InvalidData`].
pub fn invalid_data(message: &str) -> (error: IoError)
    ensures
        error@ == error_of(ErrorKind::InvalidData, message@),
{
    IoError::new(ErrorKind::InvalidData, message.to_owned())
}

} // verus!
