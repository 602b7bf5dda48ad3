use crate::http::{plain_response, Response, StatusCode};
use vstd::prelude::*;
use vstd::string::StringExecFns;

verus! {

/// What can go wrong while a request is decoded. Every failure of the wire
/// format is a `BadRequest`.
#[derive(Eq, PartialEq, Clone, Copy, Debug, Structural)]
pub enum Error {
    BadRequest,
}

impl Error {
    /// The response that the error is answered with: 400 with an empty body.
    pub fn http_response(&self) -> (r: Response)
        ensures
            r@ == plain_response(StatusCode::BadRequest, Seq::empty()),
    {
        match self {
            Error::BadRequest => Response::bad_request(),
        }
    }

    /// The error in words.
    pub fn message(&self) -> (s: String)
        ensures
            s@ == "Bad Request"@,
    {
        match self {
            Error::BadRequest => String::from_str("Bad Request"),
        }
    }
}

} // verus!
