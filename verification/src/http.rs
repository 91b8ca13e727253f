//! The classes of HTTP status codes.

use vstd::prelude::*;

verus! {

/// What a status code says of the request it answers.
#[derive(Clone, Copy, Debug, PartialEq, Eq, Structural)]
pub enum StatusClass {
    /// 200 to 299.
    Success,
    /// 400 to 499: the request was at fault.
    ClientError,
    /// 500 to 599: the server was at fault.
    ServerError,
    /// Any other code.
    Other,
}

/// The class of the status code `status`.
pub open spec fn status_class(status: int) -> StatusClass {
    if 200 <= status < 300 {
        StatusClass::Success
    } else if 400 <= status < 500 {
        StatusClass::ClientError
    } else if 500 <= status < 600 {
        StatusClass::ServerError
    } else {
        StatusClass::Other
    }
}

/// Tells the class of a status code.
pub fn classify(status: u16) -> (r: StatusClass)
    ensures
        r == status_class(status as int),
{
    if 200 <= status && status < 300 {
        StatusClass::Success
    } else if 400 <= status && status < 500 {
        StatusClass::ClientError
    } else if 500 <= status && status < 600 {
        StatusClass::ServerError
    } else {
        StatusClass::Other
    }
}

} // verus!
