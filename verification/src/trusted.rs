//! The only items of this crate whose contracts are believed rather than
//! proved: declarations of the outside functions the library calls, each
//! with a doc comment naming what it relies on.

use vstd::prelude::*;
use std::sync::Arc;
use core::sync::atomic::AtomicBool;
use crate::strings::digit_char;

verus! {

#[verifier::external_type_specification]
#[verifier::external_body]
pub struct ExJsonValue(serde_json::Value);

/// Whether serde_json accepts `s` as a single JSON document.
pub uninterp spec fn is_valid_json(s: Seq<char>) -> bool;

/// Relies on serde_json::from_str::<Value>: whether parsing succeeds is a
/// function of the input text alone.
#[verifier::external_body]
pub(crate) fn parse_json(s: &str) -> (r: Option<serde_json::Value>)
    ensures
        r is Some <==> is_valid_json(s@),
{
    serde_json::from_str::<serde_json::Value>(s).ok()
}

/// Relies on serde_json::Value::get: looks a key up in a JSON object.
/// The value's contents are opaque here, so nothing is stated of the result.
#[verifier::external_body]
pub(crate) fn json_get<'a>(v: &'a serde_json::Value, key: &str) -> Option<&'a serde_json::Value> {
    v.get(key)
}

/// Relies on serde_json::Value::as_str: the string payload, if `v` is a string.
#[verifier::external_body]
pub(crate) fn json_as_str(v: &serde_json::Value) -> Option<&str> {
    v.as_str()
}

/// Relies on serde_json::Value::as_u64: the numeric payload, if `v` is an
/// unsigned integer.
#[verifier::external_body]
pub(crate) fn json_as_u64(v: &serde_json::Value) -> Option<u64> {
    v.as_u64()
}

/// Relies on serde_json::Value::as_array: the elements, if `v` is an array.
#[verifier::external_body]
pub(crate) fn json_as_array(v: &serde_json::Value) -> Option<&Vec<serde_json::Value>> {
    v.as_array()
}

/// Relies on serde_json::Value::is_null.
#[verifier::external_body]
pub(crate) fn json_is_null(v: &serde_json::Value) -> bool {
    v.is_null()
}

/// Relies on serde_json::Value::is_object.
#[verifier::external_body]
pub(crate) fn json_is_object(v: &serde_json::Value) -> bool {
    v.is_object()
}

/// What urlencoding::encode returns on `s`.
pub uninterp spec fn url_encoded(s: Seq<char>) -> Seq<char>;

/// Relies on urlencoding::encode: percent-encodes every byte except ASCII
/// alphanumerics and `-`, `_`, `.`, `~`; a function of the text alone.
#[verifier::external_body]
pub(crate) fn url_encode(s: &str) -> (r: String)
    ensures
        r@ == url_encoded(s@),
{
    urlencoding::encode(s).into_owned()
}

/// The character hex::encode uses for one nibble.
pub open spec fn hex_digit(d: int) -> char {
    if d < 10 {
        digit_char(d)
    } else if d == 10 { 'a' }
    else if d == 11 { 'b' }
    else if d == 12 { 'c' }
    else if d == 13 { 'd' }
    else if d == 14 { 'e' }
    else { 'f' }
}

/// Lowercase hex rendering of a byte string: two digits per byte, high
/// nibble first.
pub open spec fn hex_of(b: Seq<u8>) -> Seq<char> {
    Seq::new(b.len() * 2, |i: int|
        if i % 2 == 0 {
            hex_digit(b[i / 2] as int / 16)
        } else {
            hex_digit(b[i / 2] as int % 16)
        })
}

/// Relies on hex::encode: lowercase hex, two digits per byte, high nibble
/// first.
#[verifier::external_body]
pub(crate) fn hex_encode16(b: &[u8; 16]) -> (r: String)
    ensures
        r@ == hex_of(b@),
{
    hex::encode(b)
}

/// Relies on rand::random: 16 bytes drawn from thread-local randomness;
/// nothing holds of their values.
#[verifier::external_body]
pub(crate) fn random_bytes_16() -> (r: [u8; 16]) {
    rand::random()
}

/// Relies on uuid::Uuid::new_v4 and its hyphenated rendering through
/// Display: a fresh random identifier, always 36 characters long.
#[verifier::external_body]
pub(crate) fn new_uuid_string() -> (r: String)
    ensures
        r@.len() == 36,
{
    uuid::Uuid::new_v4().to_string()
}

/// Relies on chrono::Utc::now, rendered at once through
/// chrono::DateTime::to_rfc3339: the current wall-clock instant as text.
/// The instant depends on the clock, so nothing is stated of the result.
#[verifier::external_body]
pub(crate) fn now_rfc3339() -> String {
    chrono::Utc::now().to_rfc3339()
}

/// Relies on Arc::clone (vstd specifies Arc::new only): the returned handle
/// shares the same allocation as `f`.
#[verifier::external_body]
pub(crate) fn share_flag(f: &Arc<AtomicBool>) -> Arc<AtomicBool> {
    Arc::clone(f)
}

} // verus!
