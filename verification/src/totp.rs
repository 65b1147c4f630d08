//! TOTP code generation: base32 secrets, the trusted boundary around the
//! `otpauth` crate, and the fixed-width rendering of a code.

use vstd::prelude::*;
use vstd::utf8::encode_utf8;
use crate::text::ascii_chars_of;

verus! {

/// A byte of the RFC 4648 base32 alphabet without padding: `A`-`Z` or `2`-`7`.
pub open spec fn is_b32_byte(b: u8) -> bool {
    (0x41 <= b <= 0x5a) || (0x32 <= b <= 0x37)
}

/// Every byte of `s` is in the base32 alphabet; such text, and only such
/// text, decodes to a key.
pub open spec fn is_base32(s: Seq<u8>) -> bool {
    forall|i: int| 0 <= i < s.len() ==> is_b32_byte(#[trigger] s[i])
}

/// The five-bit value of a base32 alphabet byte.
pub open spec fn b32_val(b: u8) -> u8
    recommends
        is_b32_byte(b),
{
    if 0x41 <= b <= 0x5a {
        (b - 0x41) as u8
    } else {
        (b - 0x32 + 26) as u8
    }
}

/// The five-bit value at position `i` of `s`, zero past the end.
pub open spec fn b32_at(s: Seq<u8>, i: int) -> u8 {
    if 0 <= i < s.len() {
        b32_val(s[i])
    } else {
        0
    }
}

/// The five bytes that the eight base32 characters starting at `k` decode to.
pub open spec fn b32_chunk(s: Seq<u8>, k: int) -> Seq<u8> {
    seq![
        (b32_at(s, k) << 3) | (b32_at(s, k + 1) >> 2),
        (b32_at(s, k + 1) << 6) | (b32_at(s, k + 2) << 1) | (b32_at(s, k + 3) >> 4),
        (b32_at(s, k + 3) << 4) | (b32_at(s, k + 4) >> 1),
        (b32_at(s, k + 4) << 7) | (b32_at(s, k + 5) << 2) | (b32_at(s, k + 6) >> 3),
        (b32_at(s, k + 6) << 5) | b32_at(s, k + 7),
    ]
}

/// The decoded bytes of the first `n` eight-character chunks of `s`.
pub open spec fn b32_chunks(s: Seq<u8>, n: int) -> Seq<u8>
    decreases n,
{
    if n <= 0 {
        Seq::empty()
    } else {
        b32_chunks(s, n - 1) + b32_chunk(s, 8 * (n - 1))
    }
}

/// The bytes that base32 text decodes to: whole chunks of eight characters,
/// a last partial chunk read as if padded with zero bits, cut to the five
/// eighths of the text length.
pub open spec fn base32_decoded(s: Seq<u8>) -> Seq<u8> {
    b32_chunks(s, ((s.len() + 7) / 8) as int).take((s.len() * 5 / 8) as int)
}

/// The key bytes that an `otpauth::TOTP` value holds.
pub uninterp spec fn totp_key(t: otpauth::TOTP) -> Seq<u8>;

/// The code that the HMAC-SHA1 TOTP computation yields for a key, a time-step
/// length and a timestamp, already reduced modulo 1_000_000.
pub uninterp spec fn totp_code(key: Seq<u8>, period: u64, now: u64) -> u32;

#[verifier::external_type_specification]
#[verifier::external_body]
pub struct ExTotp(otpauth::TOTP);

/// Relies on `otpauth::TOTP::from_base32`: it decodes the secret as RFC 4648
/// base32 without padding, returns `None` exactly when a byte is outside that
/// alphabet, and holds the decoded bytes as the key.
#[verifier::external_body]
pub(crate) fn totp_from_base32(secret: &str) -> (r: Option<otpauth::TOTP>)
    ensures
        r is Some <==> is_base32(encode_utf8(secret@)),
        r is Some ==> totp_key(r->0) == base32_decoded(encode_utf8(secret@)),
{
    otpauth::TOTP::from_base32(secret)
}

/// Relies on `otpauth::TOTP::generate`: the code is a function of the held
/// key, the period and the timestamp alone, reduced modulo 1_000_000; it
/// divides the timestamp by the period, so the period must not be zero.
#[verifier::external_body]
pub(crate) fn totp_generate(t: &otpauth::TOTP, period: u64, now: u64) -> (r: u32)
    requires
        period >= 1,
    ensures
        r == totp_code(totp_key(*t), period, now),
        r < 1000000,
{
    t.generate(period, now)
}

/// The six ASCII digit bytes of `code`, left-padded with zeros.
pub open spec fn code_digits(code: u32) -> Seq<u8>
    recommends
        code < 1000000,
{
    seq![
        (0x30 + (code / 100000) % 10) as u8,
        (0x30 + (code / 10000) % 10) as u8,
        (0x30 + (code / 1000) % 10) as u8,
        (0x30 + (code / 100) % 10) as u8,
        (0x30 + (code / 10) % 10) as u8,
        (0x30 + code % 10) as u8,
    ]
}

/// The six characters of `code`, left-padded with zeros.
pub open spec fn code_chars(code: u32) -> Seq<char> {
    ascii_chars_of(code_digits(code))
}

/// An ASCII decimal digit character.
pub open spec fn is_digit_char(c: char) -> bool {
    '0' <= c <= '9'
}

/// Renders a code as exactly six decimal digits, left-padded with zeros.
pub fn format_code(code: u32) -> (r: String)
    requires
        code < 1000000,
    ensures
        r@ == code_chars(code),
        r@.len() == 6,
        forall|i: int| 0 <= i < r@.len() ==> is_digit_char(#[trigger] r@[i]),
{
    let mut v: Vec<u8> = Vec::new();
    v.push((0x30 + (code / 100000) % 10) as u8);
    v.push((0x30 + (code / 10000) % 10) as u8);
    v.push((0x30 + (code / 1000) % 10) as u8);
    v.push((0x30 + (code / 100) % 10) as u8);
    v.push((0x30 + (code / 10) % 10) as u8);
    v.push((0x30 + code % 10) as u8);
    proof {
        assert(v@ =~= code_digits(code));
        assert forall|i: int| 0 <= i < code_chars(code).len() implies is_digit_char(
            #[trigger] code_chars(code)[i],
        ) by {
            assert(0x30 <= code_digits(code)[i] <= 0x39);
            assert(code_chars(code)[i] == code_digits(code)[i] as char);
        }
    }
    crate::text::ascii_to_string(v)
}

} // verus!
