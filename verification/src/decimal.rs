//! Decimal text of unsigned integers, as `itoa` writes it.
use vstd::prelude::*;

use crate::headers::{ascii_bytes, is_ascii_chars, is_valid_header_value};

verus! {

/// `itoa::Buffer`, the scratch space that `itoa` prints into.
#[verifier::external_type_specification]
#[verifier::external_body]
pub struct ExItoaBuffer(itoa::Buffer);

/// The character of a decimal digit.
pub open spec fn digit_char(d: nat) -> char
    recommends
        d < 10,
{
    (d + 48) as char
}

/// The decimal representation of `n`, most significant digit first, without
/// leading zeros (zero itself is "0").
pub open spec fn decimal_chars(n: nat) -> Seq<char>
    decreases n,
{
    if n < 10 {
        seq![digit_char(n)]
    } else {
        decimal_chars(n / 10).push(digit_char(n % 10))
    }
}

/// Every character of a decimal representation is an ASCII digit.
pub proof fn lemma_decimal_chars_are_digits(n: nat)
    ensures
        decimal_chars(n).len() > 0,
        forall|i: int|
            0 <= i < decimal_chars(n).len() ==> 48 <= (#[trigger] decimal_chars(n)[i] as u32) < 58,
    decreases n,
{
    if n >= 10 {
        lemma_decimal_chars_are_digits(n / 10);
    }
}

/// The decimal text of a number is ASCII and may stand in a header value.
pub proof fn lemma_decimal_is_header_value(n: nat)
    ensures
        is_ascii_chars(decimal_chars(n)),
        is_valid_header_value(ascii_bytes(decimal_chars(n))),
{
    lemma_decimal_chars_are_digits(n);
    let s = decimal_chars(n);
    assert forall|i: int| 0 <= i < ascii_bytes(s).len() implies (ascii_bytes(s)[i] >= 32
        && ascii_bytes(s)[i] != 127) by {
        assert(48 <= (s[i] as u32) < 58);
    }
}

/// `itoa::Buffer::new`: a fresh buffer to print into.
#[verifier::external_body]
pub(crate) fn itoa_buffer_new() -> itoa::Buffer {
    itoa::Buffer::new()
}

/// `itoa::Buffer::format` on a `u64`: the decimal representation of the
/// number, copied out of the buffer.
#[verifier::external_body]
pub(crate) fn itoa_format(buffer: &mut itoa::Buffer, n: u64) -> (text: String)
    ensures
        text@ == decimal_chars(n as nat),
{
    buffer.format(n).to_owned()
}

} // verus!
