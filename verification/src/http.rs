//! Status codes of the wire protocol.

use hyper::StatusCode;
use vstd::prelude::*;

verus! {

/// `hyper::StatusCode`, a status code of a response. Nothing is known of a
/// value of it but what the functions below say.
#[verifier::external_type_specification]
#[verifier::external_body]
pub struct ExStatusCode(hyper::StatusCode);

/// The status code that `StatusCode::from_u16` gives for a number that it
/// accepts.
pub uninterp spec fn status_of(code: u16) -> StatusCode;

/// The number that a status code holds: what `StatusCode::as_u16` returns
/// for it.
pub uninterp spec fn status_number(status: StatusCode) -> u16;

/// Whether `code` is a number that a status code can hold.
pub open spec fn is_status_number(code: u16) -> bool {
    100 <= code <= 999
}

/// Calls `StatusCode::from_u16`, which accepts exactly the numbers from 100
/// to 999, gives the same status code for the same number, and keeps in the
/// status code the number it was given.
#[verifier::external_body]
fn from_u16(code: u16) -> (status: Option<StatusCode>)
    ensures
        status is Some <==> is_status_number(code),
        status matches Some(s) ==> s == status_of(code) && status_number(s) == code,
{
    StatusCode::from_u16(code).ok()
}

/// Calls `StatusCode::as_u16`, which hands back the number that the status
/// code holds. Every status code holds a number from 100 to 999.
#[verifier::external_body]
fn as_u16(status: &StatusCode) -> (code: u16)
    ensures
        code == status_number(*status),
        is_status_number(code),
{
    status.as_u16()
}

/// The status code for a number between 100 and 999.
pub fn status_code(code: u16) -> (status: StatusCode)
    requires
        is_status_number(code),
    ensures
        status == status_of(code),
        status_number(status) == code,
{
    from_u16(code).unwrap()
}

/// The status code for `code`, or `None` where `code` is not between 100 and 999.
pub fn checked_status_code(code: u16) -> (status: Option<StatusCode>)
    ensures
        status is Some <==> is_status_number(code),
        status matches Some(s) ==> s == status_of(code) && status_number(s) == code,
{
    from_u16(code)
}

/// The number that a status code holds.
pub fn status_value(status: &StatusCode) -> (code: u16)
    ensures
        code == status_number(*status),
        is_status_number(code),
{
    as_u16(status)
}

} // verus!
