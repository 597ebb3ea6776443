//! The header collection of a response, and the byte strings that it holds,
//! as the library sees them.
use vstd::prelude::*;

use bytes::Bytes;
use http::header::{InvalidHeaderValue, MaxSizeReached};
use http::{HeaderMap, HeaderValue};

verus! {

/// `http::HeaderMap`, the multimap of a response's headers; what it holds
/// is known only through `header_map_entries` and `header_map_key_count`.
#[verifier::external_type_specification]
#[verifier::external_body]
#[verifier::reject_recursive_types(T)]
pub struct ExHeaderMap<T>(HeaderMap<T>);

/// `http::HeaderValue`, known through `header_value_bytes`.
#[verifier::external_type_specification]
#[verifier::external_body]
pub struct ExHeaderValue(HeaderValue);

/// `http::header::InvalidHeaderValue`, the error of a refused header value.
#[verifier::external_type_specification]
#[verifier::external_body]
pub struct ExInvalidHeaderValue(InvalidHeaderValue);

/// `http::header::MaxSizeReached`, the error of an insertion that the
/// table of a `HeaderMap` cannot take.
#[verifier::external_type_specification]
#[verifier::external_body]
pub struct ExMaxSizeReached(MaxSizeReached);

/// `bytes::Bytes`, a shared byte buffer, known through `bytes_contents`.
#[verifier::external_type_specification]
#[verifier::external_body]
pub struct ExBytes(Bytes);

/// What a header map holds: for each header name (always lower case), the
/// values stored under it, in the order in which they were added.
pub uninterp spec fn header_map_entries(m: HeaderMap) -> Map<Seq<char>, Seq<Seq<u8>>>;

/// The number of distinct names in a header map (what `HeaderMap::keys_len`
/// counts).
pub uninterp spec fn header_map_key_count(m: HeaderMap) -> nat;

/// The bytes that a header value holds.
pub uninterp spec fn header_value_bytes(v: HeaderValue) -> Seq<u8>;

/// The bytes that a shared byte buffer holds.
pub uninterp spec fn bytes_contents(b: Bytes) -> Seq<u8>;

/// A byte that may stand in a header value: visible ASCII, a horizontal tab,
/// or an opaque octet at or above 128.
pub open spec fn is_header_value_byte(b: u8) -> bool {
    (b >= 32 && b != 127) || b == 9
}

/// Every byte may stand in a header value.
pub open spec fn is_valid_header_value(bytes: Seq<u8>) -> bool {
    forall|i: int| 0 <= i < bytes.len() ==> is_header_value_byte(#[trigger] bytes[i])
}

/// A header name written in lower case from letters, digits and hyphens.
pub open spec fn is_lower_token_name(name: Seq<char>) -> bool {
    &&& 0 < name.len() <= 64
    &&& forall|i: int|
        0 <= i < name.len() ==> {
            let c = #[trigger] name[i];
            ('a' <= c && c <= 'z') || ('0' <= c && c <= '9') || c == '-'
        }
}

/// Every character is ASCII.
pub open spec fn is_ascii_chars(s: Seq<char>) -> bool {
    forall|i: int| 0 <= i < s.len() ==> (#[trigger] s[i] as u32) < 128
}

/// The bytes of an ASCII string, one per character.
pub open spec fn ascii_bytes(s: Seq<char>) -> Seq<u8> {
    s.map_values(|c: char| (c as u32) as u8)
}

/// `HeaderMap::contains_key`, with the name given as a string: true when the
/// map holds a value under that name.
#[verifier::external_body]
pub(crate) fn header_map_contains_key(map: &HeaderMap, name: &str) -> (found: bool)
    requires
        is_lower_token_name(name@),
    ensures
        found == header_map_entries(*map).dom().contains(name@),
{
    map.contains_key(name)
}

/// `HeaderMap::try_insert` with a static lower-case name. On success every
/// value held under the name is replaced by the one value given, and the
/// first value that was held there, if any, is handed back. It fails, with
/// the map's names and values as they were, only when its table would have
/// to grow past 2^15 slots. A map with fewer than 6554 names (five times
/// that stays below 2^15) never needs that, whatever its inner state, so
/// there the insertion succeeds; above that, success depends on the
/// table's inner state, which is not modelled. The name must be one that
/// `HeaderName` accepts from a static string, else the call panics.
#[verifier::external_body]
pub(crate) fn header_map_try_insert(map: &mut HeaderMap, name: &'static str, value: HeaderValue) -> (res:
    Result<Option<HeaderValue>, MaxSizeReached>)
    requires
        is_lower_token_name(name@),
    ensures
        res is Ok ==> header_map_entries(*final(map)) == header_map_entries(*old(map)).insert(
            name@,
            seq![header_value_bytes(value)],
        ),
        res is Ok ==> header_map_key_count(*final(map)) == header_map_key_count(*old(map)) + (
        if header_map_entries(*old(map)).dom().contains(name@) {
            0int
        } else {
            1int
        }),
        header_map_key_count(*old(map)) < 6554 ==> res is Ok,
        res is Err ==> header_map_entries(*final(map)) == header_map_entries(*old(map)),
        res is Err ==> header_map_key_count(*final(map)) == header_map_key_count(*old(map)),
        res matches Ok(prev) ==> (prev is Some <==> header_map_entries(*old(map)).dom().contains(
            name@,
        )),
        res matches Ok(Some(p)) ==> header_value_bytes(p) == header_map_entries(*old(map))[name@][0],
{
    map.try_insert(name, value)
}

/// `HeaderValue::from_maybe_shared` on a `Bytes` buffer: a value holding the
/// same bytes when every byte may stand in a header value, else an error.
#[verifier::external_body]
pub(crate) fn header_value_from_shared(bytes: Bytes) -> (res: Result<HeaderValue, InvalidHeaderValue>)
    ensures
        res is Ok <==> is_valid_header_value(bytes_contents(bytes)),
        res matches Ok(v) ==> header_value_bytes(v) == bytes_contents(bytes),
{
    HeaderValue::from_maybe_shared(bytes)
}

/// `HeaderValue::from_str`: for an ASCII string, a value holding its bytes
/// when each may stand in a header value, else an error. Of a string with
/// other characters nothing is stated.
#[verifier::external_body]
pub(crate) fn header_value_from_str(s: &str) -> (res: Result<HeaderValue, InvalidHeaderValue>)
    ensures
        is_ascii_chars(s@) ==> (res is Ok <==> is_valid_header_value(ascii_bytes(s@))),
        is_ascii_chars(s@) ==> (res matches Ok(v) ==> header_value_bytes(v) == ascii_bytes(s@)),
{
    HeaderValue::from_str(s)
}

/// `HeaderValue::from_static`: a value holding the bytes of a string of
/// visible ASCII characters or tabs; it panics on any other string, which
/// `requires` rules out.
#[verifier::external_body]
pub(crate) fn header_value_from_static(s: &'static str) -> (v: HeaderValue)
    requires
        forall|i: int|
            0 <= i < s@.len() ==> (32 <= (#[trigger] s@[i] as u32) < 127 || s@[i] == '\t'),
    ensures
        header_value_bytes(v) == ascii_bytes(s@),
{
    HeaderValue::from_static(s)
}

/// `Bytes::clone`: another handle on the same bytes.
#[verifier::external_body]
pub(crate) fn bytes_clone(bytes: &Bytes) -> (copy: Bytes)
    ensures
        bytes_contents(copy) == bytes_contents(*bytes),
{
    bytes.clone()
}

} // verus!
