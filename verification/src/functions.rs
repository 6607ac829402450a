//! Callables with optional parameters and validated input.

use vstd::prelude::*;
use crate::arguments::Argument;
use crate::errors::{ErrorCategory, NativeError, NativeErrorView};

verus! {

/// What `return_eins` works with where its parameter is left out.
pub const RETURN_EINS_DEFAULT: i32 = -1;

/// What `return_either_or` returns where it has no value to return.
pub const RETURN_EITHER_OR_FALLBACK: i32 = 0;

/// The failure of `return_eins` for the marker for "no value".
pub open spec fn absent_rejected() -> NativeErrorView {
    NativeErrorView {
        declared: Some(ErrorCategory::InvalidArgument),
        message: "argument 'num' must not be None"@,
    }
}

/// The failure of `check_positive` for a negative input.
pub open spec fn negative_rejected() -> NativeErrorView {
    NativeErrorView {
        declared: Some(ErrorCategory::InvalidArgument),
        message: "x is negative"@,
    }
}

/// Always zero.
pub fn return_null() -> (zero: usize)
    ensures
        zero == 0,
{
    0
}

/// Returns its parameter, which defaults to `-1`. The parameter takes a
/// number only: the marker for "no value" is rejected as `InvalidArgument`.
pub fn return_eins(num: Argument<i32>) -> (outcome: Result<i32, NativeError>)
    ensures
        match num.resolved(Some(RETURN_EINS_DEFAULT)) {
            Some(value) => outcome == Ok::<i32, NativeError>(value),
            None => outcome matches Err(error) && error@ == absent_rejected(),
        },
{
    match num.resolve(Some(RETURN_EINS_DEFAULT)) {
        Some(value) => Ok(value),
        None => Err(
            NativeError::new(ErrorCategory::InvalidArgument, "argument 'num' must not be None"),
        ),
    }
}

/// Returns its parameter, or `0` where there is none. The parameter defaults
/// to the marker for "no value", so leaving it out and passing the marker
/// give the same result.
pub fn return_either_or(num: Argument<i32>) -> (value: i32)
    ensures
        value == match num.resolved(None) {
            Some(given) => given,
            None => RETURN_EITHER_OR_FALLBACK,
        },
{
    match num.resolve(None) {
        Some(given) => given,
        None => RETURN_EITHER_OR_FALLBACK,
    }
}

/// Accepts `x` where it is not negative, and rejects it as
/// `InvalidArgument` where it is.
pub fn check_positive(x: i32) -> (outcome: Result<(), NativeError>)
    ensures
        match outcome {
            Ok(_) => x >= 0,
            Err(error) => x < 0 && error@ == negative_rejected(),
        },
{
    if x < 0 {
        Err(NativeError::new(ErrorCategory::InvalidArgument, "x is negative"))
    } else {
        Ok(())
    }
}

} // verus!
