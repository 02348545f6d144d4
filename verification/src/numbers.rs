//! Decimal rendering and parsing of the protocol's unsigned integer fields.

use vstd::prelude::*;

verus! {

/// The ASCII decimal digits of `n`, most significant first, no sign and no
/// leading zero (except for `n == 0` itself).
pub open spec fn dec_digits(n: nat) -> Seq<u8>
    decreases n,
{
    if n < 10 {
        seq![(48 + n) as u8]
    } else {
        dec_digits(n / 10).push((48 + n % 10) as u8)
    }
}

pub open spec fn is_dec_digit(b: u8) -> bool {
    48 <= b <= 57
}

pub open spec fn all_dec_digits(s: Seq<u8>) -> bool {
    forall|i: int| 0 <= i < s.len() ==> is_dec_digit(#[trigger] s[i])
}

/// The numeric value of a sequence of ASCII digits.
pub open spec fn dec_value(s: Seq<u8>) -> nat
    decreases s.len(),
{
    if s.len() == 0 {
        0
    } else {
        dec_value(s.drop_last()) * 10 + (s.last() - 48) as nat
    }
}

/// What a decimal field means: a non-empty, all-digit byte run whose value
/// fits in 64 bits; anything else does not parse.
pub open spec fn spec_parse_u64(s: Seq<u8>) -> Option<u64> {
    if s.len() > 0 && all_dec_digits(s) && dec_value(s) <= u64::MAX {
        Some(dec_value(s) as u64)
    } else {
        None
    }
}

/// Render `n` in decimal.
pub fn u64_to_digits(n: u64) -> (r: Vec<u8>)
    ensures
        r@ == dec_digits(n as nat),
    decreases n,
{
    if n < 10 {
        let mut v: Vec<u8> = Vec::new();
        v.push(48 + n as u8);
        proof {
            assert(v@ =~= dec_digits(n as nat));
        }
        v
    } else {
        let mut v = u64_to_digits(n / 10);
        v.push(48 + (n % 10) as u8);
        v
    }
}

/// The value of a digit prefix never exceeds the value of the whole run.
proof fn lemma_dec_value_prefix(s: Seq<u8>, i: int)
    requires
        0 <= i <= s.len(),
        all_dec_digits(s),
    ensures
        dec_value(s.subrange(0, i)) <= dec_value(s),
    decreases s.len() - i,
{
    if i == s.len() {
        assert(s.subrange(0, i) =~= s);
    } else {
        let shorter = s.subrange(0, s.len() - 1);
        assert(shorter =~= s.drop_last());
        assert(s.subrange(0, i) =~= shorter.subrange(0, i));
        lemma_dec_value_prefix(shorter, i);
        vstd::arithmetic::mul::lemma_mul_inequality(1, 10, dec_value(shorter) as int);
        assert(dec_value(shorter) <= dec_value(shorter) * 10);
    }
}

/// Parse a decimal field.  Returns the value exactly when the bytes are a
/// non-empty digit run whose value fits in 64 bits.
pub fn parse_u64_digits(s: &[u8]) -> (r: Option<u64>)
    ensures
        r == spec_parse_u64(s@),
{
    if s.len() == 0 {
        return None;
    }
    let mut acc: u64 = 0;
    let mut i: usize = 0;
    while i < s.len()
        invariant
            0 < s@.len(),
            i <= s@.len(),
            all_dec_digits(s@.subrange(0, i as int)),
            acc == dec_value(s@.subrange(0, i as int)),
        decreases s@.len() - i,
    {
        let ghost pre = s@.subrange(0, i as int);
        let ghost post = s@.subrange(0, i as int + 1);
        proof {
            assert(post.drop_last() =~= pre);
        }
        let b = s[i];
        if b < 48 || b > 57 {
            return None;
        }
        let step = match acc.checked_mul(10) {
            Some(m) => m.checked_add((b - 48) as u64),
            None => None,
        };
        match step {
            Some(v) => {
                acc = v;
            },
            None => {
                proof {
                    assert(dec_value(post) > u64::MAX);
                    if all_dec_digits(s@) && dec_value(s@) <= u64::MAX {
                        lemma_dec_value_prefix(s@, i as int + 1);
                    }
                }
                return None;
            },
        }
        i = i + 1;
    }
    proof {
        assert(s@.subrange(0, s@.len() as int) =~= s@);
    }
    Some(acc)
}

/// All bytes rendered by `dec_digits` are decimal digits.
proof fn lemma_dec_digits_are_digits(n: nat)
    ensures
        all_dec_digits(dec_digits(n)),
    decreases n,
{
    if n < 10 {
    } else {
        lemma_dec_digits_are_digits(n / 10);
        let whole = dec_digits(n);
        let front = dec_digits(n / 10);
        assert(whole == front.push((48 + n % 10) as u8));
        assert forall|i: int| 0 <= i < whole.len() implies is_dec_digit(whole[i]) by {
            if i < front.len() {
                assert(whole[i] == front[i]);
            }
        }
    }
}

/// Rendering then parsing gives the number back: the decimal codec is
/// lossless for every 64-bit value.
pub proof fn lemma_dec_round_trip(n: u64)
    ensures
        spec_parse_u64(dec_digits(n as nat)) == Some(n),
{
    lemma_dec_digits_are_digits(n as nat);
    lemma_dec_value_of_digits(n as nat);
}

/// `dec_value` inverts `dec_digits`.
proof fn lemma_dec_value_of_digits(n: nat)
    ensures
        dec_value(dec_digits(n)) == n,
    decreases n,
{
    if n < 10 {
        let s = dec_digits(n);
        assert(s == seq![(48 + n) as u8]);
        assert(s.last() == (48 + n) as u8);
        assert(s.drop_last() =~= Seq::<u8>::empty());
        assert(dec_value(s.drop_last()) == 0);
        assert(dec_value(s) == 0 * 10 + (s.last() - 48) as nat);
    } else {
        lemma_dec_value_of_digits(n / 10);
        let whole = dec_digits(n);
        assert(whole == dec_digits(n / 10).push((48 + n % 10) as u8));
        assert(whole.drop_last() =~= dec_digits(n / 10));
        assert(whole.last() == (48 + n % 10) as u8);
        assert((whole.last() - 48) as nat == n % 10);
        assert(dec_value(whole) == dec_value(whole.drop_last()) * 10 + (whole.last() - 48) as nat);
        assert(dec_value(whole) == (n / 10) * 10 + n % 10);
        vstd::arithmetic::div_mod::lemma_fundamental_div_mod(n as int, 10);
    }
}

} // verus!
