//! Errors of the Virtual Torus.
use crate::text::{push_signed_decimal, signed_decimal_chars};
use vstd::prelude::*;
use vstd::std_specs::convert::FromSpecImpl;

verus! {

/// Errors that can occur in the Virtual Torus.
#[derive(Debug)]
pub enum Error {
    /// The submission ring is full.
    SubmissionFull,
    /// No completions available (non-blocking reap).
    NothingAvailable,
    /// The operation failed with the given errno.
    Os(i32),
    /// An invalid parameter was passed.
    InvalidParam(&'static str),
    /// The backend encountered an internal error.
    Backend(String),
}

/// The human-readable description of an error.
pub open spec fn error_text(e: &Error) -> Seq<char> {
    match e {
        Error::SubmissionFull => "submission queue is full"@,
        Error::NothingAvailable => "no completions available"@,
        Error::Os(code) => "os error: "@ + signed_decimal_chars(*code as int),
        Error::InvalidParam(p) => "invalid parameter: "@ + p@,
        Error::Backend(msg) => "backend error: "@ + msg@,
    }
}

impl Error {
    /// The human-readable description of this error.
    pub fn display_string(&self) -> (s: String)
        ensures
            s@ == error_text(self),
    {
        match self {
            Error::SubmissionFull => String::from_str("submission queue is full"),
            Error::NothingAvailable => String::from_str("no completions available"),
            Error::Os(code) => {
                let mut s = String::from_str("os error: ");
                push_signed_decimal(&mut s, *code as i64);
                s
            },
            Error::InvalidParam(p) => {
                let mut s = String::from_str("invalid parameter: ");
                s.append(p);
                s
            },
            Error::Backend(msg) => {
                let mut s = String::from_str("backend error: ");
                s.append(msg.as_str());
                s
            },
        }
    }
}

impl From<i32> for Error {
    fn from(e: i32) -> (r: Self) {
        Error::Os(e)
    }
}

impl FromSpecImpl<i32> for Error {
    open spec fn obeys_from_spec() -> bool {
        true
    }

    open spec fn from_spec(e: i32) -> Self {
        Error::Os(e)
    }
}

} // verus!
