//! Public identifiers for storage keys.
//!
//! A storage key is a signed 64-bit number that the database hands out in
//! sequence. Clients never see it. What they see is the key plus a fixed
//! offset, written as eight little-endian bytes in base 58. The offset is no
//! secret: it only keeps the key zero, which no entity has, from ever being
//! accepted.

use vstd::prelude::*;
use vstd::bytes::*;
use crate::errors::{DecodeError, FailureKind, ValidationFailure};

verus! {

/// What is added to a key before it is written as bytes.
pub const OFFSET: i64 = 7;

/// The text that the base 58 encoder of the `bs58` crate, with its default
/// alphabet, gives for `bytes`.
pub uninterp spec fn base58_text(bytes: Seq<u8>) -> Seq<char>;

/// The bytes that the base 58 decoder of the `bs58` crate, with its default
/// alphabet, gives for `text`; `None` where it rejects the text.
pub uninterp spec fn base58_bytes(text: Seq<char>) -> Option<Seq<u8>>;

/// The error of the `bs58` decoder. Nothing is read from it: whatever it
/// says, the text is malformed.
#[verifier::external_type_specification]
#[verifier::external_body]
pub struct ExBase58DecodeError(bs58::decode::Error);

/// Calls `bs58::encode(..).into_string()`.
///
/// Trusted: the result is the crate's encoding of `bytes`, and the crate's
/// decoder gives `bytes` back for it.
#[verifier::external_body]
fn base58_encode(bytes: &[u8]) -> (text: String)
    ensures
        text@ == base58_text(bytes@),
        base58_bytes(text@) == Some(bytes@),
{
    bs58::encode(bytes).into_string()
}

/// Calls `bs58::decode(..).into_vec()`.
///
/// Trusted: the result is the crate's decoding of `text`, and where the
/// decoder accepts `text`, the crate's encoder gives `text` back for the bytes.
#[verifier::external_body]
fn base58_decode(text: &str) -> (decoded: Result<Vec<u8>, bs58::decode::Error>)
    ensures
        match decoded {
            Ok(bytes) => base58_bytes(text@) == Some(bytes@) && base58_text(bytes@) == text@,
            Err(_) => base58_bytes(text@) is None,
        },
{
    bs58::decode(text).into_vec()
}

/// Whether `key` plus the offset still fits in 64 bits.
pub open spec fn encodable(key: i64) -> bool {
    key + OFFSET <= i64::MAX
}

/// The eight bytes that stand for `key`: the key plus the offset, in two's
/// complement, lowest byte first.
pub open spec fn key_bytes(key: i64) -> Seq<u8> {
    spec_u64_to_le_bytes((key + OFFSET) as u64)
}

/// The 64-bit value that eight bytes hold, lowest byte first.
pub open spec fn raw_value(bytes: Seq<u8>) -> i64 {
    spec_u64_from_le_bytes(bytes) as i64
}

/// The key that `bytes` stand for, or why they stand for none.
pub open spec fn key_of_bytes(bytes: Seq<u8>) -> Result<i64, DecodeError> {
    if bytes.len() != 8 {
        Err(DecodeError::MalformedInput)
    } else if raw_value(bytes) - OFFSET < i64::MIN {
        Err(DecodeError::MalformedInput)
    } else if raw_value(bytes) == OFFSET {
        Err(DecodeError::InvalidIdentifier)
    } else {
        Ok((raw_value(bytes) - OFFSET) as i64)
    }
}

/// The public identifier of `key`.
pub open spec fn external_id(key: i64) -> Seq<char> {
    base58_text(key_bytes(key))
}

/// The key that the public identifier `text` names, or why it names none.
pub open spec fn internal_key(text: Seq<char>) -> Result<i64, DecodeError> {
    match base58_bytes(text) {
        Some(bytes) => key_of_bytes(bytes),
        None => Err(DecodeError::MalformedInput),
    }
}

/// Eight bytes written for a value give that value back, and the other way
/// round.
proof fn lemma_raw_round_trip()
    ensures
        forall|raw: i64| #[trigger] spec_u64_to_le_bytes(raw as u64).len() == 8,
        forall|raw: i64| raw_value(#[trigger] spec_u64_to_le_bytes(raw as u64)) == raw,
        forall|bytes: Seq<u8>|
            bytes.len() == 8 ==> #[trigger] spec_u64_to_le_bytes(raw_value(bytes) as u64) == bytes,
{
    lemma_auto_spec_u64_to_from_le_bytes();
    assert forall|raw: i64| raw_value(#[trigger] spec_u64_to_le_bytes(raw as u64)) == raw by {
        assert((raw as u64) as i64 == raw) by (bit_vector);
    }
    assert forall|bytes: Seq<u8>| bytes.len() == 8 implies #[trigger] spec_u64_to_le_bytes(
        raw_value(bytes) as u64,
    ) == bytes by {
        let x = spec_u64_from_le_bytes(bytes);
        assert((x as i64) as u64 == x) by (bit_vector);
    }
}

/// The bytes written for a key give that key back, unless the key is zero,
/// which is rejected as an invalid identifier.
pub proof fn lemma_key_bytes_round_trip(key: i64)
    requires
        encodable(key),
    ensures
        key_bytes(key).len() == 8,
        key != 0 ==> key_of_bytes(key_bytes(key)) == Ok::<i64, DecodeError>(key),
        key == 0 ==> key_of_bytes(key_bytes(key)) == Err::<i64, DecodeError>(
            DecodeError::InvalidIdentifier,
        ),
{
    lemma_raw_round_trip();
}

/// Two keys are never written as the same bytes.
pub proof fn lemma_key_bytes_differ(a: i64, b: i64)
    requires
        encodable(a),
        encodable(b),
        key_bytes(a) == key_bytes(b),
    ensures
        a == b,
{
    lemma_raw_round_trip();
    assert(raw_value(key_bytes(a)) == a + OFFSET);
    assert(raw_value(key_bytes(b)) == b + OFFSET);
}

/// Bytes are accepted only if they are what some key other than zero is
/// written as, and they give that key.
pub proof fn lemma_accepted_bytes_are_key_bytes(bytes: Seq<u8>, key: i64)
    requires
        key_of_bytes(bytes) == Ok::<i64, DecodeError>(key),
    ensures
        key != 0,
        encodable(key),
        bytes == key_bytes(key),
{
    lemma_raw_round_trip();
}

/// Text that decodes to the offset itself names no key: it is rejected as an
/// invalid identifier, and never taken for the key zero.
pub proof fn lemma_offset_names_no_key(text: Seq<char>, bytes: Seq<u8>)
    requires
        base58_bytes(text) == Some(bytes),
        bytes.len() == 8,
        raw_value(bytes) == OFFSET,
    ensures
        internal_key(text) == Err::<i64, DecodeError>(DecodeError::InvalidIdentifier),
{
}

/// No text names the key zero.
pub proof fn lemma_zero_is_never_named(text: Seq<char>)
    ensures
        internal_key(text) != Ok::<i64, DecodeError>(0),
{
}

/// Text that the decoder rejects, or that decodes to anything but eight bytes,
/// is malformed.
pub proof fn lemma_wrong_length_is_malformed(text: Seq<char>)
    requires
        base58_bytes(text) matches Some(bytes) ==> bytes.len() != 8,
    ensures
        internal_key(text) == Err::<i64, DecodeError>(DecodeError::MalformedInput),
{
}

/// Writes `key` as the eight bytes that its public identifier encodes.
pub fn key_to_bytes(key: i64) -> (bytes: Vec<u8>)
    requires
        encodable(key),
    ensures
        bytes@ == key_bytes(key),
        bytes@.len() == 8,
{
    let raw: i64 = key + OFFSET;
    u64_to_le_bytes(raw as u64)
}

/// Reads the key back from the bytes that a public identifier decodes to.
///
/// Anything but eight bytes is malformed, and so is a value so low that no key
/// maps to it. The value that the key zero maps to is rejected as an invalid
/// identifier.
pub fn key_from_bytes(bytes: &[u8]) -> (key: Result<i64, DecodeError>)
    ensures
        key == key_of_bytes(bytes@),
        key != Ok::<i64, DecodeError>(0),
{
    if bytes.len() != 8 {
        return Err(DecodeError::MalformedInput);
    }
    let raw: i64 = u64_from_le_bytes(bytes) as i64;
    if raw < i64::MIN + OFFSET {
        Err(DecodeError::MalformedInput)
    } else if raw == OFFSET {
        Err(DecodeError::InvalidIdentifier)
    } else {
        Ok(raw - OFFSET)
    }
}

/// Storage keys that can be shown to clients.
pub trait ToProtoId {
    /// Whether the key has a public identifier.
    spec fn has_proto_id(&self) -> bool;

    /// The public identifier of the key.
    spec fn proto_id(&self) -> Seq<char>;

    /// Gives the public identifier of the key.
    fn to_proto_id(&self) -> (id: String)
        requires
            self.has_proto_id(),
        ensures
            id@ == self.proto_id(),
    ;
}

impl ToProtoId for i64 {
    open spec fn has_proto_id(&self) -> bool {
        encodable(*self)
    }

    open spec fn proto_id(&self) -> Seq<char> {
        external_id(*self)
    }

    /// The identifier decodes to the key it was made from, unless that key is
    /// zero.
    fn to_proto_id(&self) -> (id: String)
        ensures
            *self != 0 ==> internal_key(id@) == Ok::<i64, DecodeError>(*self),
            *self == 0 ==> internal_key(id@) == Err::<i64, DecodeError>(
                DecodeError::InvalidIdentifier,
            ),
    {
        let bytes = key_to_bytes(*self);
        proof {
            lemma_raw_round_trip();
        }
        base58_encode(bytes.as_slice())
    }
}

/// Public identifiers that can be turned back into storage keys.
pub trait ToDbId {
    /// The key that the identifier names, or why it names none.
    spec fn db_id(&self) -> Result<i64, DecodeError>;

    /// Gives the key that the identifier names.
    fn to_db_id(&self) -> (key: Result<i64, DecodeError>)
        ensures
            key == self.db_id(),
    ;

    /// Gives the key that the identifier names; any failure is reported as an
    /// invalid identifier in the field `field_name`.
    fn to_db_id_or_err(&self, field_name: &str) -> (key: Result<i64, ValidationFailure>)
        ensures
            match key {
                Ok(k) => self.db_id() == Ok::<i64, DecodeError>(k),
                Err(e) => self.db_id() is Err && e.is_about(
                    field_name@,
                    FailureKind::InvalidIdentifier,
                ),
            },
    ;
}

impl ToDbId for String {
    open spec fn db_id(&self) -> Result<i64, DecodeError> {
        internal_key(self@)
    }

    /// Only the identifier of a key other than zero is accepted, and it gives
    /// that key.
    fn to_db_id(&self) -> (key: Result<i64, DecodeError>)
        ensures
            key != Ok::<i64, DecodeError>(0),
            key matches Ok(k) ==> encodable(k) && self@ == external_id(k),
    {
        match base58_decode(self.as_str()) {
            Ok(bytes) => {
                proof {
                    lemma_raw_round_trip();
                }
                key_from_bytes(bytes.as_slice())
            },
            Err(_) => Err(DecodeError::MalformedInput),
        }
    }

    fn to_db_id_or_err(&self, field_name: &str) -> (key: Result<i64, ValidationFailure>) {
        match self.to_db_id() {
            Ok(id) => Ok(id),
            Err(_) => Err(ValidationFailure::new(field_name, FailureKind::InvalidIdentifier)),
        }
    }
}

} // verus!
