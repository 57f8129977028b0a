//! HTTP status codes that the library answers with.

use vstd::prelude::*;

verus! {

/// An HTTP error status.
#[derive(Debug, Clone, Copy, PartialEq, Eq, Structural)]
pub enum StatusCode {
    /// The request cannot be read.
    BadRequest,
    /// There is no valid session or token.
    Unauthorized,
    /// The session lacks a group.
    Forbidden,
    /// The answer cannot be put together.
    InternalServerError,
    /// The backend did not answer.
    BadGateway,
}

impl StatusCode {
    /// The number of the status.
    pub open spec fn code(self) -> u16 {
        match self {
            StatusCode::BadRequest => 400,
            StatusCode::Unauthorized => 401,
            StatusCode::Forbidden => 403,
            StatusCode::InternalServerError => 500,
            StatusCode::BadGateway => 502,
        }
    }

    /// The number of the status.
    pub fn as_u16(&self) -> (n: u16)
        ensures
            n == self.code(),
    {
        match self {
            StatusCode::BadRequest => 400,
            StatusCode::Unauthorized => 401,
            StatusCode::Forbidden => 403,
            StatusCode::InternalServerError => 500,
            StatusCode::BadGateway => 502,
        }
    }
}

/// The statuses have the numbers that HTTP gives them.
pub proof fn law_status_numbers(status: StatusCode)
    ensures
        status is BadRequest ==> status.code() == 400,
        status is Unauthorized ==> status.code() == 401,
        status is Forbidden ==> status.code() == 403,
        status is InternalServerError ==> status.code() == 500,
        status is BadGateway ==> status.code() == 502,
{
}

} // verus!
