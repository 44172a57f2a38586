//! Bounding of duration-valued delay parameters.
//!
//! The native layer takes inter-keystroke delays as unsigned microsecond
//! counts. A caller that holds a delay as a signed microsecond duration
//! must have it checked against the valid range first: the check is
//! local, happens before any native call, and reports the offending
//! value together with the inclusive bounds when it fails.

use vstd::prelude::*;

use crate::errors::OpError;

verus! {

/// Smallest accepted delay, in microseconds (inclusive).
pub const DELAY_MIN_MICROS: i64 = 0;

/// Largest accepted delay, in microseconds (inclusive).
pub const DELAY_MAX_MICROS: i64 = 1000000;

/// The verdict of the delay bounds check: a duration of `micros`
/// microseconds is accepted exactly when it lies in
/// `DELAY_MIN_MICROS ..= DELAY_MAX_MICROS`, and is otherwise rejected
/// with the offending value and the bounds.
pub open spec fn delay_check(micros: i64) -> Result<u32, OpError> {
    if DELAY_MIN_MICROS <= micros <= DELAY_MAX_MICROS {
        Ok(micros as u32)
    } else {
        Err(OpError::OutOfRange { value: micros, min: DELAY_MIN_MICROS, max: DELAY_MAX_MICROS })
    }
}

/// Converts a signed microsecond duration into the unsigned delay the
/// native layer takes, rejecting any value outside the inclusive range
/// `0 ..= 1000000` with an out-of-range error that reports the value
/// and both bounds.
pub fn delay_from_micros(micros: i64) -> (r: Result<u32, OpError>)
    ensures
        r == delay_check(micros),
{
    if DELAY_MIN_MICROS <= micros && micros <= DELAY_MAX_MICROS {
        Ok(micros as u32)
    } else {
        Err(OpError::OutOfRange { value: micros, min: DELAY_MIN_MICROS, max: DELAY_MAX_MICROS })
    }
}

} // verus!
