//! The headers that a route adds to a response before handing it out:
//! `Allow`, when the route was built with one and the response has none,
//! and `Content-Length`, when the body's size is known exactly and the
//! response has none.
use vstd::prelude::*;

use bytes::Bytes;
use http::header::MaxSizeReached;
use http::HeaderMap;

use crate::decimal::{decimal_chars, itoa_buffer_new, itoa_format, lemma_decimal_is_header_value};
use crate::headers::{
    ascii_bytes, bytes_contents, header_map_contains_key, header_map_entries, header_map_try_insert,
    header_value_from_shared, header_value_from_static, header_value_from_str,
    header_map_key_count, is_valid_header_value,
};

verus! {

/// What a header map holds, name by name.
pub type HeaderEntries = Map<Seq<char>, Seq<Seq<u8>>>;

/// The name of the `Allow` header.
pub open spec fn allow_name() -> Seq<char> {
    seq!['a', 'l', 'l', 'o', 'w']
}

/// The name of the `Content-Length` header.
pub open spec fn content_length_name() -> Seq<char> {
    seq!['c', 'o', 'n', 't', 'e', 'n', 't', '-', 'l', 'e', 'n', 'g', 't', 'h']
}

/// The two header names that finishing sets are different names.
pub proof fn lemma_header_names_differ()
    ensures
        allow_name() != content_length_name(),
{
    assert(allow_name()[0] != content_length_name()[0]);
}

/// The bytes of a `Content-Length` value: the length in decimal.
pub open spec fn content_length_value(n: nat) -> Seq<u8> {
    ascii_bytes(decimal_chars(n))
}

/// The bytes of an optional buffer.
pub open spec fn optional_bytes(b: Option<Bytes>) -> Option<Seq<u8>> {
    match b {
        Some(b) => Some(bytes_contents(b)),
        None => None,
    }
}

/// The entries after the `Allow` header is set from `allow`: only when a
/// value is given and no `Allow` header is there yet.
pub open spec fn with_allow(entries: HeaderEntries, allow: Option<Seq<u8>>) -> HeaderEntries {
    match allow {
        Some(v) => if entries.dom().contains(allow_name()) {
            entries
        } else {
            entries.insert(allow_name(), seq![v])
        },
        None => entries,
    }
}

/// The entries after `Content-Length` is set from an exact body size: only
/// when the size is known and no `Content-Length` header is there yet.
pub open spec fn with_content_length(entries: HeaderEntries, exact: Option<u64>) -> HeaderEntries {
    if entries.dom().contains(content_length_name()) {
        entries
    } else {
        match exact {
            Some(n) => entries.insert(content_length_name(), seq![content_length_value(n as nat)]),
            None => entries,
        }
    }
}

/// Setting `Allow` from `allow` would insert into the map.
pub open spec fn allow_is_due(m: HeaderMap, allow: Option<Bytes>) -> bool {
    allow is Some && !header_map_entries(m).dom().contains(allow_name())
}

/// Setting `Content-Length` from `exact` would insert into the map.
pub open spec fn content_length_is_due(m: HeaderMap, exact: Option<u64>) -> bool {
    exact is Some && !header_map_entries(m).dom().contains(content_length_name())
}

/// The bounds of a body's size that a response reports: at least `lower`
/// bytes, and at most `upper` where that is known.
#[derive(Clone, Copy, Debug, PartialEq, Eq, Structural)]
pub struct BodySizeHint {
    pub lower: u64,
    pub upper: Option<u64>,
}

impl BodySizeHint {
    /// The exact size: the lower bound, where both bounds are that value.
    pub open spec fn spec_exact(self) -> Option<u64> {
        if self.upper == Some(self.lower) {
            Some(self.lower)
        } else {
            None
        }
    }

    /// The exact size of the body, where the bounds agree.
    pub fn exact(&self) -> (size: Option<u64>)
        ensures
            size == self.spec_exact(),
            size matches Some(n) ==> self.lower == n && self.upper == Some(n),
            self.upper == Some(self.lower) ==> size == Some(self.lower),
    {
        match self.upper {
            Some(upper) => if upper == self.lower {
                Some(upper)
            } else {
                None
            },
            None => None,
        }
    }
}

/// Takes the `Allow` value out of `allow_header` and stores it in `headers`,
/// unless `headers` has one already. The value must be one that a header
/// may hold, wherever it is stored. The map may refuse the insertion when
/// its table cannot grow (never below 6554 names); the headers are then
/// left as they were.
pub fn set_allow_header(headers: &mut HeaderMap, allow_header: &mut Option<Bytes>) -> (res: Result<
    (),
    MaxSizeReached,
>)
    requires
        allow_is_due(*old(headers), *old(allow_header)) ==> is_valid_header_value(
            bytes_contents(old(allow_header).unwrap()),
        ),
    ensures
        *final(allow_header) is None,
        res is Err ==> allow_is_due(*old(headers), *old(allow_header)),
        header_map_key_count(*old(headers)) < 6554 ==> res is Ok,
        res is Ok ==> header_map_entries(*final(headers)) == with_allow(
            header_map_entries(*old(headers)),
            optional_bytes(*old(allow_header)),
        ),
        res is Ok ==> header_map_key_count(*final(headers)) == header_map_key_count(*old(headers)) + (
        if allow_is_due(*old(headers), *old(allow_header)) {
            1int
        } else {
            0int
        }),
        res is Err ==> header_map_entries(*final(headers)) == header_map_entries(*old(headers)),
        res is Err ==> header_map_key_count(*final(headers)) == header_map_key_count(*old(headers)),
{
    proof {
        reveal_strlit("allow");
        assert("allow"@ =~= allow_name());
    }
    match allow_header.take() {
        Some(allow) => {
            if !header_map_contains_key(headers, "allow") {
                match header_value_from_shared(allow) {
                    Ok(value) => {
                        match header_map_try_insert(headers, "allow", value) {
                            Ok(_) => Ok(()),
                            Err(full) => Err(full),
                        }
                    },
                    Err(_) => {
                        // the value is valid wherever it is due
                        proof {
                            assert(false);
                        }
                        Ok(())
                    },
                }
            } else {
                Ok(())
            }
        },
        None => Ok(()),
    }
}

/// Stores the exact body size from `size_hint` in `headers` as
/// `Content-Length`, unless `headers` has one already or the size is not
/// known exactly. The map may refuse the insertion when its table cannot
/// grow (never below 6554 names); the headers are then left as they were.
pub fn set_content_length(size_hint: BodySizeHint, headers: &mut HeaderMap) -> (res: Result<
    (),
    MaxSizeReached,
>)
    ensures
        res is Err ==> content_length_is_due(*old(headers), size_hint.spec_exact()),
        header_map_key_count(*old(headers)) < 6554 ==> res is Ok,
        res is Ok ==> header_map_entries(*final(headers)) == with_content_length(
            header_map_entries(*old(headers)),
            size_hint.spec_exact(),
        ),
        res is Ok ==> header_map_key_count(*final(headers)) == header_map_key_count(*old(headers)) + (
        if content_length_is_due(*old(headers), size_hint.spec_exact()) {
            1int
        } else {
            0int
        }),
        res is Err ==> header_map_entries(*final(headers)) == header_map_entries(*old(headers)),
        res is Err ==> header_map_key_count(*final(headers)) == header_map_key_count(*old(headers)),
{
    proof {
        reveal_strlit("content-length");
        reveal_strlit("0");
        assert("content-length"@ =~= content_length_name());
    }
    if header_map_contains_key(headers, "content-length") {
        return Ok(());
    }
    if let Some(size) = size_hint.exact() {
        let header_value = if size == 0 {
            assert(decimal_chars(0) =~= "0"@);
            header_value_from_static("0")
        } else {
            let mut buffer = itoa_buffer_new();
            let text = itoa_format(&mut buffer, size);
            proof {
                lemma_decimal_is_header_value(size as nat);
            }
            header_value_from_str(text.as_str()).unwrap()
        };
        match header_map_try_insert(headers, "content-length", header_value) {
            Ok(_) => Ok(()),
            Err(full) => Err(full),
        }
    } else {
        Ok(())
    }
}

} // verus!
