//! Which characters and which values a field may hold.

use vstd::prelude::*;
use vstd::string::*;
use vstd::utf8::*;
use crate::errors::{reports, FailureKind, ValidationFailure};
use crate::text::same_text;

verus! {

/// Whether `c` is a letter of the English alphabet, a digit or an underscore.
pub open spec fn is_word_char(c: char) -> bool {
    ('a' <= c <= 'z') || ('A' <= c <= 'Z') || ('0' <= c <= '9') || c == '_'
}

/// Whether `value` holds nothing but word characters.
pub open spec fn all_word_chars(value: Seq<char>) -> bool {
    forall|i: int| 0 <= i < value.len() ==> is_word_char(#[trigger] value[i])
}

/// What is wrong with the characters of `value`.
pub open spec fn word_chars_fault(value: Seq<char>) -> Option<FailureKind> {
    if all_word_chars(value) {
        None
    } else {
        Some(FailureKind::InvalidCharacter)
    }
}

/// The texts of a list of string slices.
pub open spec fn texts(values: Seq<&str>) -> Seq<Seq<char>> {
    values.map_values(|value: &str| value@)
}

/// What is wrong with `value` where the values in `reserved` may not be used.
pub open spec fn reserved_fault(value: Seq<char>, reserved: Seq<Seq<char>>) -> Option<FailureKind> {
    if reserved.contains(value) {
        Some(FailureKind::ReservedValue)
    } else {
        None
    }
}

/// Whether `byte` is the code of a word character.
fn is_word_byte(byte: u8) -> (word: bool)
    ensures
        word == (byte < 128 && is_word_char(byte as char)),
{
    (97 <= byte && byte <= 122) || (65 <= byte && byte <= 90) || (48 <= byte && byte <= 57) || byte
        == 95
}

/// Passes a value made of letters of the English alphabet, digits and
/// underscores only. The empty value passes.
pub fn validate_all_word_chars(value: &str, field_name: &str) -> (verdict: Result<
    (),
    ValidationFailure,
>)
    ensures
        reports(verdict, field_name@, word_chars_fault(value@)),
{
    if !value.is_ascii() {
        return Err(ValidationFailure::new(field_name, FailureKind::InvalidCharacter));
    }
    let bytes = value.as_bytes();
    proof {
        is_ascii_chars_encode_utf8(value@);
    }
    let mut i: usize = 0;
    while i < bytes.len()
        invariant
            i <= bytes@.len(),
            bytes@.len() == value@.len(),
            forall|j: int| 0 <= j < value@.len() ==> value@[j] as u8 == #[trigger] bytes@[j],
            forall|j: int| 0 <= j < value@.len() ==> '\0' <= #[trigger] value@[j] <= '\u{7f}',
            forall|j: int| 0 <= j < i ==> is_word_char(#[trigger] value@[j]),
        decreases bytes@.len() - i,
    {
        if !is_word_byte(bytes[i]) {
            assert(!is_word_char(value@[i as int]));
            return Err(ValidationFailure::new(field_name, FailureKind::InvalidCharacter));
        }
        assert(is_word_char(value@[i as int]));
        i += 1;
    }
    Ok(())
}

/// Passes a value that is none of `reserved`. Upper and lower case are told
/// apart.
pub fn validate_reserved_values(value: &str, field_name: &str, reserved: &[&str]) -> (verdict:
    Result<(), ValidationFailure>)
    ensures
        reports(verdict, field_name@, reserved_fault(value@, texts(reserved@))),
{
    let mut i: usize = 0;
    while i < reserved.len()
        invariant
            i <= reserved@.len(),
            forall|j: int| 0 <= j < i ==> texts(reserved@)[j] != value@,
        decreases reserved@.len() - i,
    {
        if same_text(reserved[i], value) {
            assert(texts(reserved@)[i as int] == value@);
            return Err(ValidationFailure::new(field_name, FailureKind::ReservedValue));
        }
        i += 1;
    }
    Ok(())
}

} // verus!
