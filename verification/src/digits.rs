//! Decimal digit strings: parsing an unsigned integer from bytes and
//! rendering an unsigned integer as text.

use vstd::prelude::*;
use crate::text::ascii_chars_of;

verus! {

/// An ASCII decimal digit.
pub open spec fn is_dec_digit(b: u8) -> bool {
    0x30 <= b <= 0x39
}

/// Every byte of `s` is an ASCII decimal digit.
pub open spec fn all_dec_digits(s: Seq<u8>) -> bool {
    forall|i: int| 0 <= i < s.len() ==> is_dec_digit(#[trigger] s[i])
}

/// Numeric value of a decimal digit string, most significant digit first.
pub open spec fn dec_val(s: Seq<u8>) -> nat
    recommends
        all_dec_digits(s),
    decreases s.len(),
{
    if s.len() == 0 {
        0
    } else {
        dec_val(s.drop_last()) * 10 + (s.last() - 0x30) as nat
    }
}

/// A digit string is worth at least as much as any of its prefixes.
pub proof fn lemma_dec_val_prefix(s: Seq<u8>, i: int)
    requires
        0 <= i <= s.len(),
        all_dec_digits(s),
    ensures
        dec_val(s.take(i)) <= dec_val(s),
    decreases s.len() - i,
{
    if i == s.len() {
        assert(s.take(i) =~= s);
    } else {
        assert(s.take(i + 1).drop_last() =~= s.take(i));
        assert(dec_val(s.take(i)) <= dec_val(s.take(i + 1)));
        lemma_dec_val_prefix(s, i + 1);
    }
}

/// Parses `v` as an unsigned decimal integer; `None` when `v` is empty, holds
/// a byte that is not a decimal digit, or denotes a value above `u64::MAX`.
pub fn parse_u64(v: &Vec<u8>) -> (r: Option<u64>)
    ensures
        r is Some <==> (v@.len() > 0 && all_dec_digits(v@) && dec_val(v@) <= u64::MAX),
        r is Some ==> r->0 == dec_val(v@),
{
    if v.len() == 0 {
        return None;
    }
    let mut acc: u64 = 0;
    let mut i: usize = 0;
    while i < v.len()
        invariant
            0 <= i <= v@.len(),
            all_dec_digits(v@.take(i as int)),
            acc == dec_val(v@.take(i as int)),
        decreases v@.len() - i,
    {
        let b = v[i];
        if b < 0x30 || b > 0x39 {
            return None;
        }
        let d: u64 = (b - 0x30) as u64;
        proof {
            assert(v@.take(i + 1).drop_last() =~= v@.take(i as int));
            assert(v@.take(i + 1).last() == v@[i as int]);
        }
        let next = match acc.checked_mul(10) {
            Some(x) => x.checked_add(d),
            None => None,
        };
        match next {
            Some(y) => {
                acc = y;
            },
            None => {
                proof {
                    if all_dec_digits(v@) {
                        lemma_dec_val_prefix(v@, i + 1);
                    }
                }
                return None;
            },
        }
        i = i + 1;
    }
    proof {
        assert(v@.take(v@.len() as int) =~= v@);
    }
    Some(acc)
}

/// The decimal digit string of `n`, without leading zeros (`0` is "0").
pub open spec fn dec_digits(n: nat) -> Seq<u8>
    decreases n,
{
    if n < 10 {
        seq![(0x30 + n) as u8]
    } else {
        dec_digits(n / 10).push((0x30 + n % 10) as u8)
    }
}

/// The decimal rendering of `n` as characters.
pub open spec fn dec_chars(n: nat) -> Seq<char> {
    ascii_chars_of(dec_digits(n))
}

/// All bytes of a decimal rendering are digits, hence ASCII.
pub proof fn lemma_dec_digits_ascii(n: nat)
    ensures
        all_dec_digits(dec_digits(n)),
        dec_digits(n).len() > 0,
    decreases n,
{
    if n >= 10 {
        lemma_dec_digits_ascii(n / 10);
    }
}

/// Renders `n` as its decimal digit bytes.
pub fn u64_to_digits(n: u64) -> (r: Vec<u8>)
    ensures
        r@ == dec_digits(n as nat),
{
    let mut rev: Vec<u8> = Vec::new();
    let mut m: u64 = n;
    let mut first = true;
    while m > 0 || first
        invariant
            first ==> (m == n && rev@.len() == 0),
            !first ==> dec_digits(n as nat) == (if m > 0 {
                dec_digits(m as nat) + rev@.reverse()
            } else {
                rev@.reverse()
            }),
        decreases m, (if first { 1int } else { 0int }),
    {
        let d: u8 = (m % 10) as u8 + 0x30;
        let ghost old_rev = rev@;
        let ghost old_m = m;
        rev.push(d);
        m = m / 10;
        proof {
            assert(rev@.reverse() =~= seq![d] + old_rev.reverse());
            if old_m >= 10 {
                assert(dec_digits(old_m as nat) == dec_digits((old_m / 10) as nat).push(d));
                assert(dec_digits((old_m / 10) as nat).push(d) =~= dec_digits((old_m / 10) as nat)
                    + seq![d]);
            } else {
                assert(dec_digits(old_m as nat) =~= seq![d]);
            }
            if first {
                if old_m >= 10 {
                    assert(dec_digits(n as nat) =~= dec_digits((old_m / 10) as nat) + seq![d]
                        + old_rev.reverse());
                } else {
                    assert(dec_digits(n as nat) =~= seq![d] + old_rev.reverse());
                }
            }
        }
        first = false;
    }
    let mut out: Vec<u8> = Vec::new();
    let mut j: usize = rev.len();
    while j > 0
        invariant
            0 <= j <= rev@.len(),
            out@ == rev@.reverse().take(rev@.len() - j),
        decreases j,
    {
        j = j - 1;
        out.push(rev[j]);
        proof {
            assert(out@ =~= rev@.reverse().take(rev@.len() - j));
        }
    }
    proof {
        assert(rev@.reverse().take(rev@.len() as int) =~= rev@.reverse());
    }
    out
}

/// Renders `n` in decimal.
pub fn u64_to_string(n: u64) -> (r: String)
    ensures
        r@ == dec_chars(n as nat),
{
    let digits = u64_to_digits(n);
    proof {
        lemma_dec_digits_ascii(n as nat);
    }
    crate::text::ascii_to_string(digits)
}

} // verus!
