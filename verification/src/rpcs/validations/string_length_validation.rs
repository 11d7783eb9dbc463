//! How long the text of a field may be.

use vstd::prelude::*;
use vstd::string::*;
use crate::errors::{reports, FailureKind, ValidationFailure};

verus! {

/// What is wrong with the length of `value`, counted in characters, where
/// `min` to `max` of them are wanted. Too short is found before too long.
pub open spec fn length_fault(value: Seq<char>, min: nat, max: nat) -> Option<FailureKind> {
    if value.len() < min {
        Some(FailureKind::TooShort)
    } else if value.len() > max {
        Some(FailureKind::TooLong)
    } else {
        None
    }
}

/// Passes a value of `min` to `max` characters, both included.
pub fn validate_length(value: &str, field_name: &str, min: usize, max: usize) -> (verdict: Result<
    (),
    ValidationFailure,
>)
    ensures
        reports(verdict, field_name@, length_fault(value@, min as nat, max as nat)),
{
    let length = value.unicode_len();
    if length < min {
        Err(ValidationFailure::new(field_name, FailureKind::TooShort))
    } else if length > max {
        Err(ValidationFailure::new(field_name, FailureKind::TooLong))
    } else {
        Ok(())
    }
}

} // verus!
