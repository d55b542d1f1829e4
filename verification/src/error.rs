//! Failure classification for guard evaluation.

use vstd::prelude::*;

verus! {

/// The HTTP status a failed guard evaluation reports.
#[derive(Clone, Copy, Debug, PartialEq, Eq, Structural)]
pub enum Status {
    /// 401: the request presents no usable credential header.
    Unauthorized,
    /// 400: the request itself is malformed (the header occurs more than once).
    BadRequest,
}

impl Status {
    /// The numeric HTTP status code.
    pub fn code(&self) -> (c: u16)
        ensures
            self is Unauthorized ==> c == 401,
            self is BadRequest ==> c == 400,
    {
        match self {
            Status::Unauthorized => 401,
            Status::BadRequest => 400,
        }
    }
}

/// Errors in parsing `Authorization` or `Server-Authorization` headers.
#[derive(Debug)]
pub enum HawkError {
    /// No header was found, or a header was found but with the wrong scheme
    /// (that is, not `Hawk`), or multiple headers were found.
    NoHeader,
    /// A header was found, but credential parsing failed with the embedded
    /// error of the external parser.
    BadHawk(hawk::Error),
}

} // verus!
