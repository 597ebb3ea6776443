//! What holds of the headers a route adds, whatever the response.
use vstd::prelude::*;

use bytes::Bytes;
use http::HeaderMap;

use crate::decimal::{decimal_chars, digit_char, lemma_decimal_chars_are_digits};
use crate::finish::{
    allow_is_due, allow_name, content_length_is_due, content_length_name, content_length_value,
    lemma_header_names_differ, with_allow, with_content_length, BodySizeHint, HeaderEntries,
};
use crate::headers::{
    ascii_bytes, bytes_contents, header_map_entries, is_header_value_byte, is_valid_header_value,
};
use crate::route_future::allow_is_invalid;

verus! {

/// The number that a string of decimal digits stands for.
pub open spec fn decimal_value(s: Seq<char>) -> nat
    decreases s.len(),
{
    if s.len() == 0 {
        0
    } else {
        decimal_value(s.drop_last()) * 10 + ((s.last() as u32) - 48) as nat
    }
}

/// The number that a string of ASCII digit bytes stands for.
pub open spec fn digits_value(b: Seq<u8>) -> nat
    decreases b.len(),
{
    if b.len() == 0 {
        0
    } else {
        digits_value(b.drop_last()) * 10 + (b.last() - 48) as nat
    }
}

/// Canonical decimal text: one or more ASCII digits, with no leading zero
/// unless the text is "0" itself.
pub open spec fn is_decimal_text(b: Seq<u8>) -> bool {
    &&& b.len() > 0
    &&& forall|i: int| 0 <= i < b.len() ==> 48 <= #[trigger] b[i] < 58
    &&& b[0] == 48 ==> b.len() == 1
}

/// The two headers go under the names `allow` and `content-length`.
pub proof fn law_header_names()
    ensures
        allow_name() == "allow"@,
        content_length_name() == "content-length"@,
{
    reveal_strlit("allow");
    reveal_strlit("content-length");
    assert(allow_name() =~= "allow"@);
    assert(content_length_name() =~= "content-length"@);
}

/// `Allow` is due exactly when the route holds a value and the response has
/// no `Allow` header, whatever other headers it has.
pub proof fn law_allow_due(m: HeaderMap, allow: Option<Bytes>)
    ensures
        allow_is_due(m, allow) <==> (allow is Some && !header_map_entries(m).dom().contains(
            "allow"@,
        )),
{
    law_header_names();
}

/// `Content-Length` is due exactly when the size is known exactly and the
/// response has no `Content-Length` header, whatever other headers it has.
pub proof fn law_content_length_due(m: HeaderMap, exact: Option<u64>)
    ensures
        content_length_is_due(m, exact) <==> (exact is Some && !header_map_entries(m).dom().contains(
            "content-length"@,
        )),
{
    law_header_names();
}

/// A route's `Allow` value is refused only when it is due and holds a byte
/// that no header value may hold; a valid value is never refused, and an
/// invalid one that is due always is.
pub proof fn law_allow_refused_only_if_invalid(m: HeaderMap, allow: Option<Bytes>)
    ensures
        allow_is_invalid(m, allow) <==> (allow is Some && !header_map_entries(m).dom().contains(
            "allow"@,
        ) && exists|i: int|
            0 <= i < bytes_contents(allow.unwrap()).len() && !is_header_value_byte(
                #[trigger] bytes_contents(allow.unwrap())[i],
            )),
{
    law_header_names();
}

/// The bytes a header value may hold are the tab and every byte from 32 up
/// but 127.
pub proof fn law_header_value_bytes(bytes: Seq<u8>)
    ensures
        is_valid_header_value(bytes) <==> forall|i: int|
            0 <= i < bytes.len() ==> (#[trigger] bytes[i] == 9 || (32 <= bytes[i] && bytes[i]
                != 127)),
{
}

/// Where the response has no `Allow` header, setting it from a value adds
/// that one value under `allow` and changes nothing else.
pub proof fn law_allow_added(entries: HeaderEntries, value: Seq<u8>)
    requires
        !entries.dom().contains("allow"@),
    ensures
        with_allow(entries, Some(value)) == entries.insert("allow"@, seq![value]),
{
    law_header_names();
}

/// Without a value, setting `Allow` changes nothing.
pub proof fn law_no_allow_value(entries: HeaderEntries)
    ensures
        with_allow(entries, None) == entries,
{
}

/// Without an exact size, setting `Content-Length` changes nothing.
pub proof fn law_no_exact_size(entries: HeaderEntries)
    ensures
        with_content_length(entries, None) == entries,
{
}

/// The digit bytes of a decimal string read back as the number it stands
/// for.
proof fn lemma_ascii_digits_value(s: Seq<char>)
    requires
        forall|i: int| 0 <= i < s.len() ==> 48 <= (#[trigger] s[i] as u32) < 58,
    ensures
        digits_value(ascii_bytes(s)) == decimal_value(s),
        forall|i: int| 0 <= i < s.len() ==> (#[trigger] ascii_bytes(s)[i]) as u32 == s[i] as u32,
    decreases s.len(),
{
    if s.len() > 0 {
        lemma_ascii_digits_value(s.drop_last());
        assert(ascii_bytes(s).drop_last() =~= ascii_bytes(s.drop_last()));
        assert(ascii_bytes(s).last() as u32 == s.last() as u32);
    }
}

/// The `Content-Length` value written for a size is canonical decimal text
/// that reads back as that size.
pub proof fn law_content_length_value(n: u64)
    ensures
        is_decimal_text(content_length_value(n as nat)),
        digits_value(content_length_value(n as nat)) == n,
{
    lemma_decimal_chars_are_digits(n as nat);
    law_decimal_reads_back(n as nat);
    let s = decimal_chars(n as nat);
    lemma_ascii_digits_value(s);
    let b = content_length_value(n as nat);
    assert forall|i: int| 0 <= i < b.len() implies 48 <= #[trigger] b[i] < 58 by {
        assert(b[i] as u32 == s[i] as u32);
    }
    if b[0] == 48 {
        assert(s[0] as u32 == 48);
    }
}

/// Where the response has no `Content-Length` header, setting it from an
/// exact size adds one value under `content-length`, canonical decimal text
/// that reads back as the size, and changes nothing else.
pub proof fn law_content_length_written(entries: HeaderEntries, n: u64)
    requires
        !entries.dom().contains("content-length"@),
    ensures
        ({
            let after = with_content_length(entries, Some(n));
            &&& after.dom().contains("content-length"@)
            &&& after["content-length"@].len() == 1
            &&& is_decimal_text(after["content-length"@][0])
            &&& digits_value(after["content-length"@][0]) == n
            &&& after.remove("content-length"@) == entries
        }),
{
    law_header_names();
    law_content_length_value(n);
    let after = with_content_length(entries, Some(n));
    assert(after.remove("content-length"@) =~= entries);
}

/// A size hint gives an exact size exactly when both of its bounds are that
/// size: `Some(n)` when the lower bound is `n` and the upper bound is known
/// and also `n`, and nothing otherwise, whatever the size.
pub proof fn law_exact_size(hint: BodySizeHint, n: u64)
    ensures
        hint.spec_exact() == Some(n) <==> (hint.lower == n && hint.upper == Some(n)),
        hint.spec_exact() is None <==> hint.upper != Some(hint.lower),
{
}

/// An existing `Content-Length` header is never replaced, whatever the size
/// of the body.
pub proof fn law_content_length_kept(entries: HeaderEntries, exact: Option<u64>)
    requires
        entries.dom().contains(content_length_name()),
    ensures
        with_content_length(entries, exact) == entries,
{
}

/// Once `Content-Length` has been set from a known size, setting it again,
/// from any size, changes nothing.
pub proof fn law_content_length_set_once(
    entries: HeaderEntries,
    exact: Option<u64>,
    later: Option<u64>,
)
    requires
        exact is Some,
    ensures
        with_content_length(with_content_length(entries, exact), later) == with_content_length(
            entries,
            exact,
        ),
{
}

/// An existing `Allow` header is never replaced, whatever value the route
/// holds.
pub proof fn law_allow_kept(entries: HeaderEntries, allow: Option<Seq<u8>>)
    requires
        entries.dom().contains(allow_name()),
    ensures
        with_allow(entries, allow) == entries,
{
}

/// Once `Allow` has been set from a value, setting it again, from any
/// value, changes nothing.
pub proof fn law_allow_set_once(
    entries: HeaderEntries,
    allow: Option<Seq<u8>>,
    later: Option<Seq<u8>>,
)
    requires
        allow is Some,
    ensures
        with_allow(with_allow(entries, allow), later) == with_allow(entries, allow),
{
}

/// Every header other than `Allow` and `Content-Length` comes out of
/// finishing as it went in.
pub proof fn law_other_headers_untouched(
    entries: HeaderEntries,
    allow: Option<Seq<u8>>,
    exact: Option<u64>,
    name: Seq<char>,
)
    requires
        name != allow_name(),
        name != content_length_name(),
    ensures
        with_content_length(with_allow(entries, allow), exact).dom().contains(name)
            == entries.dom().contains(name),
        entries.dom().contains(name) ==> with_content_length(with_allow(entries, allow), exact)[name]
            == entries[name],
{
}

/// Setting `Allow` and setting `Content-Length` do not depend on each
/// other: either order gives the same headers.
pub proof fn law_allow_and_length_commute(
    entries: HeaderEntries,
    allow: Option<Seq<u8>>,
    exact: Option<u64>,
)
    ensures
        with_content_length(with_allow(entries, allow), exact) == with_allow(
            with_content_length(entries, exact),
            allow,
        ),
{
    lemma_header_names_differ();
    if allow is Some && !entries.dom().contains(allow_name()) && exact is Some
        && !entries.dom().contains(content_length_name()) {
        assert(with_content_length(with_allow(entries, allow), exact) =~= with_allow(
            with_content_length(entries, exact),
            allow,
        ));
    }
}

/// Finishing a response a second time, once the route's `Allow` value has
/// been used up, leaves its headers as the first time left them.
pub proof fn law_finishing_twice(entries: HeaderEntries, allow: Option<Seq<u8>>, exact: Option<u64>)
    ensures
        ({
            let once = with_content_length(with_allow(entries, allow), exact);
            with_content_length(with_allow(once, None), exact) == once
        }),
{
    let once = with_content_length(with_allow(entries, allow), exact);
    if exact is Some {
        assert(once.dom().contains(content_length_name()));
    }
}

/// The decimal text that `Content-Length` is written from reads back as the
/// length, and has no leading zero (but for the length zero).
pub proof fn law_decimal_reads_back(n: nat)
    ensures
        decimal_value(decimal_chars(n)) == n,
        decimal_chars(n)[0] == '0' ==> n == 0,
        (decimal_chars(n)[0] as u32) == 48 ==> n == 0,
    decreases n,
{
    lemma_decimal_chars_are_digits(n);
    if n >= 10 {
        law_decimal_reads_back(n / 10);
        let s = decimal_chars(n);
        assert(s.drop_last() =~= decimal_chars(n / 10));
        assert(s.last() == digit_char(n % 10));
        assert((digit_char(n % 10) as u32) == n % 10 + 48);
        assert(n == (n / 10) * 10 + n % 10);
        assert(s[0] == decimal_chars(n / 10)[0]);
        assert(decimal_value(s) == decimal_value(s.drop_last()) * 10 + ((s.last() as u32) - 48) as nat);
    } else {
        let s = decimal_chars(n);
        assert(digit_char(n) as u32 == n + 48);
        assert(s.drop_last() =~= Seq::<char>::empty());
        assert(decimal_value(s.drop_last()) == 0);
        assert(decimal_value(s) == decimal_value(s.drop_last()) * 10 + ((s.last() as u32) - 48) as nat);
    }
}

} // verus!
