//! The error taxonomy of the library.
//!
//! Transport failures (`Io`, `Timeout`) are distinguished from protocol
//! failures (`Protocol`, `Type`, `InvalidInput`) and from errors reported by
//! the remote instrument itself (`Server`), which leave the connection usable.

use vstd::prelude::*;

verus! {

/// Every fallible operation of the library returns this error type.
#[derive(Debug)]
pub enum NanonisError {
    /// A socket operation failed; the connection is not usable afterwards.
    Io(String),
    /// A read or write exceeded the configured deadline.
    Timeout(String),
    /// The peer sent a malformed, truncated or over-long body, or one whose
    /// bytes do not fit the expected result codes.
    Protocol(String),
    /// A value was extracted under the wrong tag.
    Type(String),
    /// A caller-supplied argument was rejected before any byte was written.
    InvalidInput(String),
    /// The instrument-control software reported a failure of its own.
    Server { code: i32, message: String },
}

impl NanonisError {
    /// The human-readable text carried by the error.
    pub fn describe(&self) -> (r: String)
        ensures
            match self {
                NanonisError::Io(m) => r@ == m@,
                NanonisError::Timeout(m) => r@ == m@,
                NanonisError::Protocol(m) => r@ == m@,
                NanonisError::Type(m) => r@ == m@,
                NanonisError::InvalidInput(m) => r@ == m@,
                NanonisError::Server { code, message } => r@ == message@,
            },
    {
        match self {
            NanonisError::Io(m) => m.clone(),
            NanonisError::Timeout(m) => m.clone(),
            NanonisError::Protocol(m) => m.clone(),
            NanonisError::Type(m) => m.clone(),
            NanonisError::InvalidInput(m) => m.clone(),
            NanonisError::Server { code: _, message } => message.clone(),
        }
    }

    /// The remote status code, when the error came from the instrument.
    pub fn server_code(&self) -> (r: Option<i32>)
        ensures
            match self {
                NanonisError::Server { code, message } => r == Some(*code),
                _ => r is None,
            },
    {
        match self {
            NanonisError::Server { code, message: _ } => Some(*code),
            _ => None,
        }
    }
}

} // verus!
