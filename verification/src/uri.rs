//! The backup-line URI format: `otpauth://totp/<label>?<query>`.
//!
//! The decoding of one line is modelled by [`spec_decode`], a function on the
//! UTF-8 bytes of the line.  The label is percent-decoded; a colon in it marks
//! a username.  The query is a sequence of `&`-separated `key=value` pairs,
//! keys and values percent-decoded, the first occurrence of a key winning.

use vstd::prelude::*;
use vstd::utf8::{valid_utf8, decode_utf8, valid_first_scalar, pop_first_scalar};
use vstd::utf8::{
    length_of_first_scalar,
    valid_utf8_split,
    is_char_boundary_iff_not_is_continuation_byte,
};
use crate::text::{find_from, find_byte, pct_decode, trimmed, lemma_find_from};
use crate::digits::{all_dec_digits, dec_val};

verus! {

/// A query key that the decoder requires.
#[derive(Clone, Copy, Debug, PartialEq, Eq, Structural)]
pub enum Field {
    Issuer,
    Secret,
    Period,
}

/// Why a backup line could not be decoded into an account.
#[derive(Clone, Copy, Debug, PartialEq, Eq, Structural)]
pub enum DecodeError {
    /// The line is not an `otpauth://totp/` URI.
    Syntax,
    /// Percent-decoding produced text that is not valid UTF-8.
    Encoding,
    /// A required query key is absent.
    MissingField(Field),
    /// The period is not a positive integer that fits in 64 bits.
    InvalidPeriod,
}

/// The bytes of `otpauth://totp/`.
pub open spec fn scheme_prefix() -> Seq<u8> {
    seq![0x6fu8, 0x74u8, 0x70u8, 0x61u8, 0x75u8, 0x74u8, 0x68u8, 0x3au8, 0x2fu8, 0x2fu8, 0x74u8, 0x6fu8, 0x74u8, 0x70u8, 0x2fu8]
}

/// The bytes of the query key `issuer`.
pub open spec fn issuer_key() -> Seq<u8> {
    seq![0x69u8, 0x73u8, 0x73u8, 0x75u8, 0x65u8, 0x72u8]
}

/// The bytes of the query key `secret`.
pub open spec fn secret_key() -> Seq<u8> {
    seq![0x73u8, 0x65u8, 0x63u8, 0x72u8, 0x65u8, 0x74u8]
}

/// The bytes of the query key `period`.
pub open spec fn period_key() -> Seq<u8> {
    seq![0x70u8, 0x65u8, 0x72u8, 0x69u8, 0x6fu8, 0x64u8]
}

/// The trimmed line starts with `otpauth://totp/`.
pub open spec fn has_scheme(s: Seq<u8>) -> bool {
    let t = trimmed(s);
    t.len() >= 15 && t.take(15) == scheme_prefix()
}

/// The trimmed line after the `otpauth://totp/` prefix.
pub open spec fn uri_rest(s: Seq<u8>) -> Seq<u8> {
    trimmed(s).skip(15)
}

/// The raw (still percent-encoded) label: everything before the first `?`.
pub open spec fn uri_raw_label(s: Seq<u8>) -> Seq<u8> {
    let rest = uri_rest(s);
    rest.take(find_from(rest, 0x3fu8, 0))
}

/// The raw query: everything after the first `?`, empty when there is none.
pub open spec fn uri_query(s: Seq<u8>) -> Seq<u8> {
    let rest = uri_rest(s);
    let q = find_from(rest, 0x3fu8, 0);
    if q < rest.len() {
        rest.skip(q + 1)
    } else {
        Seq::empty()
    }
}

/// The percent-decoded label bytes.
pub open spec fn uri_label(s: Seq<u8>) -> Seq<u8> {
    pct_decode(uri_raw_label(s))
}

/// The username bytes inside a percent-decoded label: the part after the
/// first colon, up to the next `?` or the end; `None` without a colon.
pub open spec fn label_username(label: Seq<u8>) -> Option<Seq<u8>> {
    let c = find_from(label, 0x3au8, 0);
    if c < label.len() {
        let after = label.skip(c + 1);
        Some(after.take(find_from(after, 0x3fu8, 0)))
    } else {
        None
    }
}

/// The raw (still percent-encoded) value of the first `&`-separated query
/// pair, at or after position `i`, whose percent-decoded key equals `key`.
/// A pair without `=` has an empty value.
pub open spec fn query_lookup(q: Seq<u8>, i: int, key: Seq<u8>) -> Option<Seq<u8>>
    recommends
        0 <= i <= q.len(),
    decreases q.len() - i when 0 <= i <= q.len() via query_lookup_decreases
{
    let amp = find_from(q, 0x26u8, i);
    let eq = find_from(q, 0x3du8, i);
    let kend = if eq < amp {
        eq
    } else {
        amp
    };
    let vstart = if eq < amp {
        eq + 1
    } else {
        amp
    };
    if pct_decode(q.subrange(i, kend)) == key {
        Some(q.subrange(vstart, amp))
    } else if amp >= q.len() {
        None
    } else {
        query_lookup(q, amp + 1, key)
    }
}

#[via_fn]
proof fn query_lookup_decreases(q: Seq<u8>, i: int, key: Seq<u8>) {
    lemma_find_from(q, 0x26u8, i);
}

/// What one decoded backup line holds: the view of an account.
#[verifier::ext_equal]
pub ghost struct AccountView {
    pub username: Option<Seq<char>>,
    pub issuer: Seq<char>,
    pub secret: Seq<char>,
    pub period: u64,
}

/// Decoding of one backup line, given as its UTF-8 bytes.
pub open spec fn spec_decode(s: Seq<u8>) -> Result<AccountView, DecodeError> {
    if !has_scheme(s) {
        Err(DecodeError::Syntax)
    } else {
        let label = uri_label(s);
        if !valid_utf8(label) {
            Err(DecodeError::Encoding)
        } else {
            let q = uri_query(s);
            match query_lookup(q, 0, issuer_key()) {
                None => Err(DecodeError::MissingField(Field::Issuer)),
                Some(iv) => {
                    let issuer = pct_decode(iv);
                    if !valid_utf8(issuer) {
                        Err(DecodeError::Encoding)
                    } else {
                        match query_lookup(q, 0, secret_key()) {
                            None => Err(DecodeError::MissingField(Field::Secret)),
                            Some(sv) => {
                                let secret = pct_decode(sv);
                                if !valid_utf8(secret) {
                                    Err(DecodeError::Encoding)
                                } else {
                                    match query_lookup(q, 0, period_key()) {
                                        None => Err(DecodeError::MissingField(Field::Period)),
                                        Some(pv) => {
                                            let p = pct_decode(pv);
                                            if !(p.len() > 0 && all_dec_digits(p) && 1 <= dec_val(p)
                                                <= u64::MAX) {
                                                Err(DecodeError::InvalidPeriod)
                                            } else {
                                                Ok(AccountView {
                                                    username: match label_username(label) {
                                                        Some(u) => Some(decode_utf8(u)),
                                                        None => None,
                                                    },
                                                    issuer: decode_utf8(issuer),
                                                    secret: decode_utf8(secret),
                                                    period: dec_val(p) as u64,
                                                })
                                            }
                                        },
                                    }
                                }
                            },
                        }
                    }
                },
            }
        }
    }
}

/// Builds the byte vector of `otpauth://totp/`.
pub fn scheme_prefix_vec() -> (r: Vec<u8>)
    ensures
        r@ == scheme_prefix(),
{
    let mut v: Vec<u8> = Vec::new();
    v.push(0x6f);
    v.push(0x74);
    v.push(0x70);
    v.push(0x61);
    v.push(0x75);
    v.push(0x74);
    v.push(0x68);
    v.push(0x3a);
    v.push(0x2f);
    v.push(0x2f);
    v.push(0x74);
    v.push(0x6f);
    v.push(0x74);
    v.push(0x70);
    v.push(0x2f);
    proof {
        assert(v@ =~= scheme_prefix());
    }
    v
}

/// Builds the byte vector of `issuer`.
pub fn issuer_key_vec() -> (r: Vec<u8>)
    ensures
        r@ == issuer_key(),
{
    let mut v: Vec<u8> = Vec::new();
    v.push(0x69);
    v.push(0x73);
    v.push(0x73);
    v.push(0x75);
    v.push(0x65);
    v.push(0x72);
    proof {
        assert(v@ =~= issuer_key());
    }
    v
}

/// Builds the byte vector of `secret`.
pub fn secret_key_vec() -> (r: Vec<u8>)
    ensures
        r@ == secret_key(),
{
    let mut v: Vec<u8> = Vec::new();
    v.push(0x73);
    v.push(0x65);
    v.push(0x63);
    v.push(0x72);
    v.push(0x65);
    v.push(0x74);
    proof {
        assert(v@ =~= secret_key());
    }
    v
}

/// Builds the byte vector of `period`.
pub fn period_key_vec() -> (r: Vec<u8>)
    ensures
        r@ == period_key(),
{
    let mut v: Vec<u8> = Vec::new();
    v.push(0x70);
    v.push(0x65);
    v.push(0x72);
    v.push(0x69);
    v.push(0x6f);
    v.push(0x64);
    proof {
        assert(v@ =~= period_key());
    }
    v
}

/// Finds the raw value of the first query pair whose percent-decoded key is
/// `key`.
pub fn query_get(q: &Vec<u8>, key: &Vec<u8>) -> (r: Option<Vec<u8>>)
    ensures
        r is Some <==> query_lookup(q@, 0, key@) is Some,
        r is Some ==> r->0@ == query_lookup(q@, 0, key@)->0,
{
    let mut i: usize = 0;
    loop
        invariant
            0 <= i <= q@.len(),
            query_lookup(q@, 0, key@) == query_lookup(q@, i as int, key@),
        decreases q@.len() - i,
    {
        let amp = find_byte(q, 0x26, i);
        let eq = find_byte(q, 0x3d, i);
        let kend = if eq < amp {
            eq
        } else {
            amp
        };
        let vstart = if eq < amp {
            eq + 1
        } else {
            amp
        };
        let kraw = crate::text::sub_vec(q, i, kend);
        let kdec = crate::text::percent_decode_vec(&kraw);
        if crate::text::bytes_eq(&kdec, key) {
            return Some(crate::text::sub_vec(q, vstart, amp));
        }
        if amp == q.len() {
            return None;
        }
        i = amp + 1;
    }
}

/// Law: when a line decodes and its percent-decoded label holds a colon, the
/// username is exactly the decoded text between the first colon and the next
/// `?` or the label's end, and the issuer is exactly the percent-decoded
/// value of the `issuer` query key — the same characters, none added and none
/// lost.
pub proof fn lemma_username_round_trip(s: Seq<u8>)
    requires
        spec_decode(s) is Ok,
        exists|i: int| 0 <= i < uri_label(s).len() && uri_label(s)[i] == 0x3a,
    ensures
        ({
            let label = uri_label(s);
            let after = label.skip(find_from(label, 0x3au8, 0) + 1);
            spec_decode(s)->Ok_0.username == Some(
                decode_utf8(after.take(find_from(after, 0x3fu8, 0))),
            )
        }),
        spec_decode(s)->Ok_0.issuer == decode_utf8(
            pct_decode(query_lookup(uri_query(s), 0, issuer_key())->0),
        ),
{
    lemma_find_from(uri_label(s), 0x3au8, 0);
}

/// Law: when a line decodes and its percent-decoded label holds no colon, the
/// account has no username.
pub proof fn lemma_no_colon_no_username(s: Seq<u8>)
    requires
        spec_decode(s) is Ok,
        forall|i: int| 0 <= i < uri_label(s).len() ==> uri_label(s)[i] != 0x3a,
    ensures
        spec_decode(s)->Ok_0.username is None,
{
    lemma_find_from(uri_label(s), 0x3au8, 0);
}

/// Law: decoding fails whenever the query lacks `issuer`, `secret` or
/// `period`.
pub proof fn lemma_missing_field_fails(s: Seq<u8>)
    requires
        query_lookup(uri_query(s), 0, issuer_key()) is None || query_lookup(
            uri_query(s),
            0,
            secret_key(),
        ) is None || query_lookup(uri_query(s), 0, period_key()) is None,
    ensures
        spec_decode(s) is Err,
{
}

/// Law: decoding fails whenever the period value is present but its
/// percent-decoded bytes are not a positive decimal number that fits in
/// 64 bits — in particular whenever they are not all decimal digits.
pub proof fn lemma_bad_period_fails(s: Seq<u8>)
    requires
        ({
            let pv = query_lookup(uri_query(s), 0, period_key());
            pv is Some && !(pct_decode(pv->0).len() > 0 && all_dec_digits(pct_decode(pv->0)) && 1
                <= dec_val(pct_decode(pv->0)) <= u64::MAX)
        }),
    ensures
        spec_decode(s) is Err,
{
}

/// Splitting valid UTF-8 just after an ASCII byte leaves valid UTF-8.
pub proof fn lemma_valid_after_ascii(s: Seq<u8>, c: int)
    requires
        valid_utf8(s),
        0 <= c < s.len(),
        s[c] < 0x80,
    ensures
        valid_utf8(s.subrange(c + 1, s.len() as int)),
{
    is_char_boundary_iff_not_is_continuation_byte(s, c);
    valid_utf8_split(s, c);
    let tail = s.subrange(c, s.len() as int);
    assert(valid_utf8(tail));
    assert(valid_first_scalar(tail) && valid_utf8(pop_first_scalar(tail)));
    assert(length_of_first_scalar(tail) == 1);
    assert(pop_first_scalar(tail) =~= s.subrange(c + 1, s.len() as int));
}

/// Cutting valid UTF-8 at its end or just before an ASCII byte leaves valid
/// UTF-8.
pub proof fn lemma_valid_take_ascii(s: Seq<u8>, j: int)
    requires
        valid_utf8(s),
        0 <= j <= s.len(),
        j < s.len() ==> s[j] < 0x80,
    ensures
        valid_utf8(s.take(j)),
{
    if j == s.len() {
        assert(s.take(j) =~= s);
    } else {
        is_char_boundary_iff_not_is_continuation_byte(s, j);
        valid_utf8_split(s, j);
        assert(s.take(j) =~= s.subrange(0, j));
    }
}

} // verus!
