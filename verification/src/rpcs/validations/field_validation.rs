//! The checks on what a user types when an account is made or changed.

use vstd::prelude::*;
use crate::errors::{reports, FailureKind, ValidationFailure};
use crate::rpcs::validations::matching_validation::{
    reserved_fault,
    texts,
    validate_all_word_chars,
    validate_reserved_values,
    word_chars_fault,
};
use crate::rpcs::validations::string_length_validation::{length_fault, validate_length};

verus! {

/// The names that no user can take: a user's page lives directly under the
/// server's address, where these lead elsewhere.
pub open spec fn reserved_usernames() -> Seq<Seq<char>> {
    seq![
        "events"@,
        "event"@,
        "e"@,
        "posts"@,
        "post"@,
        "p"@,
        "groups"@,
        "group"@,
        "g"@,
        "people"@,
        "person"@,
    ]
}

/// What is wrong with `value` as a user name. The length is looked at first,
/// then the characters, then the reserved names.
pub open spec fn username_fault(value: Seq<char>) -> Option<FailureKind> {
    if length_fault(value, 1, 47) is Some {
        length_fault(value, 1, 47)
    } else if word_chars_fault(value) is Some {
        word_chars_fault(value)
    } else {
        reserved_fault(value, reserved_usernames())
    }
}

/// What is wrong with the length of a field that may be left out.
pub open spec fn optional_length_fault(value: Option<String>, min: nat, max: nat) -> Option<
    FailureKind,
> {
    match value {
        Some(text) => length_fault(text@, min, max),
        None => None,
    }
}

/// Passes a user name of 1 to 47 word characters that is no reserved name. The
/// first fault found is the one reported.
pub fn validate_username(value: &str) -> (verdict: Result<(), ValidationFailure>)
    ensures
        reports(verdict, "username"@, username_fault(value@)),
{
    validate_length(value, "username", 1, 47)?;
    validate_all_word_chars(value, "username")?;
    let reserved: [&str; 11] = [
        "events",
        "event",
        "e",
        "posts",
        "post",
        "p",
        "groups",
        "group",
        "g",
        "people",
        "person",
    ];
    assert(texts(reserved@) =~= reserved_usernames());
    validate_reserved_values(value, "username", &reserved)
}

/// Passes a password of 8 to 128 characters.
pub fn validate_password(value: &str) -> (verdict: Result<(), ValidationFailure>)
    ensures
        reports(verdict, "password"@, length_fault(value@, 8, 128)),
{
    validate_length(value, "password", 8, 128)
}

/// Passes an e-mail address of 1 to 255 characters, and one that is left out.
pub fn validate_email(value: &Option<String>) -> (verdict: Result<(), ValidationFailure>)
    ensures
        reports(verdict, "email"@, optional_length_fault(*value, 1, 255)),
{
    match value {
        Some(value) => validate_length(value.as_str(), "email", 1, 255),
        None => Ok(()),
    }
}

/// Passes a phone number of 1 to 128 characters, and one that is left out.
pub fn validate_phone(value: &Option<String>) -> (verdict: Result<(), ValidationFailure>)
    ensures
        reports(verdict, "phone"@, optional_length_fault(*value, 1, 128)),
{
    match value {
        Some(value) => validate_length(value.as_str(), "phone", 1, 128),
        None => Ok(()),
    }
}

} // verus!
