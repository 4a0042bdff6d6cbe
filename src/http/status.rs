//! Response status codes.
use vstd::prelude::*;

verus! {

/// The smallest status code a response may carry.
pub const MIN_STATUS: i64 = 100;

/// The largest status code a response may carry.
pub const MAX_STATUS: i64 = 599;

/// Whether `status` is a status code that a response may carry.
pub open spec fn valid_status(status: int) -> bool {
    MIN_STATUS <= status <= MAX_STATUS
}

/// Checks a status code taken from a response-start event, returning it as
/// a `u16` when it lies in the accepted range.
pub fn check_status(status: i64) -> (r: Option<u16>)
    ensures
        r.is_some() <==> valid_status(status as int),
        r matches Some(s) ==> s as int == status as int,
{
    if MIN_STATUS <= status && status <= MAX_STATUS {
        Some(status as u16)
    } else {
        None
    }
}

} // verus!
