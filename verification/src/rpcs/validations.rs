//! The checks that a request passes before anything is read or changed.

pub mod field_validation;
pub mod matching_validation;
pub mod permission_validation;
pub mod string_length_validation;
