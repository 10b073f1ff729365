use vstd::prelude::*;

verus! {

/// The class of an HTTP status code, as every response is judged.
#[derive(Clone, Copy, Debug, PartialEq, Eq, Structural)]
pub enum StatusClass {
    /// 2xx.
    Success,
    /// 403: the resource is not visible to this session.
    Unauthorized,
    /// 404: the resource is absent.
    NotFound,
    /// Any other 4xx: most likely a fault of this client.
    ClientError,
    /// 5xx: transient; the user may run again.
    ServerError,
    /// Any other code.
    Unhandled,
}

pub open spec fn status_class_of(code: int) -> StatusClass {
    if 200 <= code < 300 {
        StatusClass::Success
    } else if code == 403 {
        StatusClass::Unauthorized
    } else if code == 404 {
        StatusClass::NotFound
    } else if 400 <= code < 500 {
        StatusClass::ClientError
    } else if 500 <= code < 600 {
        StatusClass::ServerError
    } else {
        StatusClass::Unhandled
    }
}

/// Classifies an HTTP status code.
pub fn classify_status(code: u16) -> (r: StatusClass)
    ensures
        r == status_class_of(code as int),
{
    if 200 <= code && code < 300 {
        StatusClass::Success
    } else if code == 403 {
        StatusClass::Unauthorized
    } else if code == 404 {
        StatusClass::NotFound
    } else if 400 <= code && code < 500 {
        StatusClass::ClientError
    } else if 500 <= code && code < 600 {
        StatusClass::ServerError
    } else {
        StatusClass::Unhandled
    }
}

} // verus!
