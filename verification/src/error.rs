//! The errors that the service reports: a kind and a message.

use vstd::prelude::*;
use vstd::string::*;

verus! {

/// What went wrong, as a caller must tell it apart.
#[derive(Clone, Copy, Debug, PartialEq, Eq, Structural, Hash)]
pub enum ErrorKind {
    /// A request field is malformed or unsupported.
    InvalidArgument,
    /// The requested model identifier has no backing implementation.
    NotFound,
    /// Inference was asked for while no model is loaded.
    FailedPrecondition,
    /// The slot is busy with a load or with another inference.
    Unavailable,
    /// The model runtime faulted during a load or an inference.
    Internal,
    /// The active model does not offer the operation, or the operation does
    /// not exist.
    Unimplemented,
}

impl ErrorKind {
    /// The status code that carries the kind on the wire.
    pub open spec fn code_spec(self) -> int {
        match self {
            ErrorKind::InvalidArgument => 3,
            ErrorKind::NotFound => 5,
            ErrorKind::FailedPrecondition => 9,
            ErrorKind::Unimplemented => 12,
            ErrorKind::Internal => 13,
            ErrorKind::Unavailable => 14,
        }
    }

    /// The kind that a status code stands for, if it stands for one of
    /// these.
    pub open spec fn with_code(code: int) -> Option<ErrorKind> {
        if code == 3 {
            Some(ErrorKind::InvalidArgument)
        } else if code == 5 {
            Some(ErrorKind::NotFound)
        } else if code == 9 {
            Some(ErrorKind::FailedPrecondition)
        } else if code == 12 {
            Some(ErrorKind::Unimplemented)
        } else if code == 13 {
            Some(ErrorKind::Internal)
        } else if code == 14 {
            Some(ErrorKind::Unavailable)
        } else {
            None
        }
    }

    /// Whether a caller may expect the same request to succeed later without
    /// changing anything.
    pub open spec fn retryable(self) -> bool {
        self == ErrorKind::Unavailable
    }

    /// The status code of the kind.
    pub fn code(&self) -> (code: i32)
        ensures
            code == self.code_spec(),
    {
        match self {
            ErrorKind::InvalidArgument => 3,
            ErrorKind::NotFound => 5,
            ErrorKind::FailedPrecondition => 9,
            ErrorKind::Unimplemented => 12,
            ErrorKind::Internal => 13,
            ErrorKind::Unavailable => 14,
        }
    }

    /// The kind with the given status code, if there is one.
    pub fn from_code(code: i32) -> (kind: Option<ErrorKind>)
        ensures
            kind == ErrorKind::with_code(code as int),
    {
        if code == 3 {
            Some(ErrorKind::InvalidArgument)
        } else if code == 5 {
            Some(ErrorKind::NotFound)
        } else if code == 9 {
            Some(ErrorKind::FailedPrecondition)
        } else if code == 12 {
            Some(ErrorKind::Unimplemented)
        } else if code == 13 {
            Some(ErrorKind::Internal)
        } else if code == 14 {
            Some(ErrorKind::Unavailable)
        } else {
            None
        }
    }

    /// Tells whether the kind is retryable.
    pub fn is_retryable(&self) -> (b: bool)
        ensures
            b == self.retryable(),
    {
        match self {
            ErrorKind::Unavailable => true,
            _ => false,
        }
    }
}

/// A failure as the service reports it.
#[derive(Clone, Debug, PartialEq, Eq)]
pub struct ServiceError {
    pub kind: ErrorKind,
    /// A text for a human reader.
    pub message: String,
}

impl ServiceError {
    /// Whether the error has the given kind and message.
    pub open spec fn says(self, kind: ErrorKind, message: Seq<char>) -> bool {
        self.kind == kind && self.message@ == message
    }

    /// An error of the given kind with the given message.
    pub fn new(kind: ErrorKind, message: &str) -> (error: ServiceError)
        ensures
            error.says(kind, message@),
    {
        ServiceError { kind, message: String::from_str(message) }
    }

    /// The status code of the error's kind.
    pub fn code(&self) -> (code: i32)
        ensures
            code == self.kind.code_spec(),
    {
        self.kind.code()
    }
}

/// The status code that a call's result carries on the wire: zero for
/// success, else the code of the error's kind.
pub open spec fn status_code_spec<T>(result: Result<T, ServiceError>) -> int {
    match result {
        Ok(_) => 0,
        Err(e) => e.kind.code_spec(),
    }
}

/// Computes the status code of a call's result.
pub fn status_code<T>(result: &Result<T, ServiceError>) -> (code: i32)
    ensures
        code == status_code_spec(*result),
        code == 0 <==> *result is Ok,
{
    match result {
        Ok(_) => 0,
        Err(e) => e.code(),
    }
}

/// No two kinds share a status code, so a kind is recovered from its code,
/// and a code that stands for a kind is the code of that kind.
pub proof fn lemma_codes_distinct(a: ErrorKind, b: ErrorKind, code: int)
    ensures
        a.code_spec() == b.code_spec() ==> a == b,
        ErrorKind::with_code(a.code_spec()) == Some(a),
        ErrorKind::with_code(code) == Some(a) ==> a.code_spec() == code,
{
}

} // verus!
