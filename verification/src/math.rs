//! Checked arithmetic over unsigned 64-bit counters and balances.
//!
//! Every counter and balance mutation in the crate routes through these two
//! functions: a sum or difference that leaves `[0, u64::MAX]` is reported as
//! an error, never wrapped or saturated.

use vstd::prelude::*;

use crate::errors::ErrorCode;

verus! {

/// Checked addition: `Ok(a + b)` exactly when the sum is representable,
/// `Err(Overflow)` otherwise.
pub fn try_add(a: u64, b: u64) -> (r: Result<u64, ErrorCode>)
    ensures
        a + b <= u64::MAX ==> r == Ok::<u64, ErrorCode>((a + b) as u64),
        a + b > u64::MAX ==> r == Err::<u64, ErrorCode>(ErrorCode::Overflow),
{
    match a.checked_add(b) {
        Some(v) => Ok(v),
        None => Err(ErrorCode::Overflow),
    }
}

/// Checked subtraction: `Ok(a - b)` exactly when `b <= a`,
/// `Err(Underflow)` otherwise.
pub fn try_sub(a: u64, b: u64) -> (r: Result<u64, ErrorCode>)
    ensures
        b <= a ==> r == Ok::<u64, ErrorCode>((a - b) as u64),
        b > a ==> r == Err::<u64, ErrorCode>(ErrorCode::Underflow),
{
    match a.checked_sub(b) {
        Some(v) => Ok(v),
        None => Err(ErrorCode::Underflow),
    }
}

} // verus!
