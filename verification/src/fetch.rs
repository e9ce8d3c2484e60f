//! Classification of a request's outcome.
//!
//! One fetch is: send a GET, look at the status code, decode the body.  The
//! shell reports what happened at each stage and these functions classify it,
//! in priority order: a transport failure (nothing was received), then a
//! status failure (a response arrived with the wrong code), then a decode
//! failure (the body did not match the expected shape).  On success the
//! decoded value is handed back unchanged, with no further validation.

use crate::fpl_error::{FplError, FplErrorKind};
use vstd::prelude::*;

verus! {

/// The single success code of the upstream API.
pub open spec fn spec_is_success(status: u16) -> bool {
    status == 200u16
}

/// Whether a status code is the success code.
pub fn is_success(status: u16) -> (r: bool)
    ensures
        r == spec_is_success(status),
{
    status == 200
}

/// The failure reported when the request could not be sent or no response
/// arrived; `detail` is the transport's own description.
pub fn transport_failure(endpoint: &str, detail: String) -> (r: FplError)
    ensures
        r.kind == FplErrorKind::TransportFailure,
        r.endpoint@ == endpoint@,
        r.detail == detail,
{
    FplError::new(FplErrorKind::TransportFailure, endpoint.to_owned(), detail)
}

/// The status gate: lets the success code through and classifies every other
/// code as a status failure carrying that code.
pub fn check_status(endpoint: &str, status: u16) -> (r: Result<(), FplError>)
    ensures
        spec_is_success(status) ==> r == Result::<(), FplError>::Ok(()),
        !spec_is_success(status) ==> (r matches Err(e) && e.kind == FplErrorKind::StatusFailure(
            status,
        ) && e.endpoint@ == endpoint@ && e.detail@ == Seq::<char>::empty()),
{
    if is_success(status) {
        Ok(())
    } else {
        proof {
            reveal_strlit("");
        }
        Err(FplError::new(FplErrorKind::StatusFailure(status), endpoint.to_owned(), String::new()))
    }
}

/// The decode gate: hands a decoded value back unchanged and classifies a
/// decoder's complaint, carried as text, as a decode failure.
pub fn accept_decoded<T>(endpoint: &str, decoded: Result<T, String>) -> (r: Result<T, FplError>)
    ensures
        (decoded matches Ok(v) ==> r == Result::<T, FplError>::Ok(v)),
        (decoded matches Err(d) ==> (r matches Err(e) && e.kind == FplErrorKind::DecodeFailure
            && e.endpoint@ == endpoint@ && e.detail == d)),
{
    match decoded {
        Ok(v) => Ok(v),
        Err(d) => Err(FplError::new(FplErrorKind::DecodeFailure, endpoint.to_owned(), d)),
    }
}

} // verus!
