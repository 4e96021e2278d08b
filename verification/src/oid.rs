//! The store-native identifier format: a canonical hexadecimal string of
//! fixed length. Malformed identifiers are recognised before any store
//! operation is issued.

use vstd::prelude::*;

verus! {

/// Length, in hexadecimal digits, of a store-native identifier.
pub const OBJECT_ID_HEX_LEN: usize = 24;

/// A hexadecimal digit, in either case.
pub open spec fn is_hex_digit(c: char) -> bool {
    ('0' <= c && c <= '9') || ('a' <= c && c <= 'f') || ('A' <= c && c <= 'F')
}

/// A syntactically well-formed store-native identifier: exactly
/// `OBJECT_ID_HEX_LEN` hexadecimal digits.
pub open spec fn valid_object_id(s: Seq<char>) -> bool {
    &&& s.len() == OBJECT_ID_HEX_LEN
    &&& forall|i: int| 0 <= i < s.len() ==> is_hex_digit(#[trigger] s[i])
}

/// Relies on bson's `ObjectId::parse_str`, which accepts exactly the strings
/// of 24 hexadecimal digits (of either case) and rejects every other string:
/// it hex-decodes the bytes and then demands exactly 12 decoded bytes.
#[verifier::external_body]
pub fn is_valid_object_id(s: &str) -> (r: bool)
    ensures
        r == valid_object_id(s@),
{
    bson::oid::ObjectId::parse_str(s).is_ok()
}

/// Relies on bson's `ObjectId::new` to draw a fresh identifier and on
/// `ObjectId::to_hex` to render it in its canonical hex form (hex-encoding of
/// the 12 identifier bytes). The value depends on the clock, a random source
/// and a process counter, so nothing is promised beyond well-formedness.
/// `ObjectId::new` itself fails on a system clock before 1970 or past 2106:
/// an environment condition, not one any input could exclude.
#[verifier::external_body]
pub fn fresh_object_id_hex() -> (r: String)
    ensures
        valid_object_id(r@),
{
    bson::oid::ObjectId::new().to_hex()
}

} // verus!
