//! Decimal-digit runs in byte form: what they denote and how they are
//! parsed.  Shared by the probe-output parser and the progress-stream
//! parser.

use vstd::prelude::*;

verus! {

/// True when `b` is an ASCII decimal digit (codes 48 through 57).
pub open spec fn is_digit(b: u8) -> bool {
    48 <= b <= 57
}

/// The value of one ASCII digit.
pub open spec fn digit_val(b: u8) -> nat
    recommends
        is_digit(b),
{
    (b - 48) as nat
}

/// True when every byte of `s` is an ASCII decimal digit.
pub open spec fn all_digits(s: Seq<u8>) -> bool {
    forall|i: int| 0 <= i < s.len() ==> is_digit(#[trigger] s[i])
}

/// The number denoted by a run of ASCII digits, most significant first.
pub open spec fn digits_val(s: Seq<u8>) -> nat
    decreases s.len(),
{
    if s.len() == 0 {
        0
    } else {
        digits_val(s.drop_last()) * 10 + digit_val(s.last())
    }
}

/// Ten to the power `n`.
pub open spec fn pow10(n: nat) -> nat
    decreases n,
{
    if n == 0 {
        1
    } else {
        10 * pow10((n - 1) as nat)
    }
}

/// A digit run denotes less than ten to the power of its length.
pub proof fn lemma_digits_val_bound(s: Seq<u8>)
    requires
        all_digits(s),
    ensures
        digits_val(s) < pow10(s.len()),
    decreases s.len(),
{
    if s.len() > 0 {
        assert(all_digits(s.drop_last()));
        lemma_digits_val_bound(s.drop_last());
        assert(digit_val(s.last()) <= 9);
    }
}

/// `pow10` grows with its argument.
pub proof fn lemma_pow10_mono(a: nat, b: nat)
    requires
        a <= b,
    ensures
        pow10(a) <= pow10(b),
    decreases b,
{
    if a < b {
        lemma_pow10_mono(a, (b - 1) as nat);
    }
}

/// Concrete powers of ten that the parsers' overflow arguments rest on.
pub proof fn lemma_pow10_values()
    ensures
        pow10(6) == 1_000_000,
        pow10(12) == 1_000_000_000_000,
        pow10(18) == 1_000_000_000_000_000_000,
{
    reveal_with_fuel(pow10, 19);
}

/// Extending a digit run by one digit multiplies its value by ten and adds
/// the digit.
pub proof fn lemma_digits_val_step(s: Seq<u8>, i: int)
    requires
        0 <= i < s.len(),
    ensures
        digits_val(s.take(i + 1)) == digits_val(s.take(i)) * 10 + digit_val(s[i]),
{
    assert(s.take(i + 1).drop_last() =~= s.take(i));
    assert(s.take(i + 1).last() == s[i]);
}

/// What `parse_u64_digits` returns: the denoted value for a run of one to
/// eighteen digits (eighteen decimal digits always fit a `u64`), nothing
/// for an empty, longer, or non-digit input.
pub open spec fn spec_parse_u64(s: Seq<u8>) -> Option<u64> {
    if 1 <= s.len() <= 18 && all_digits(s) {
        Some(digits_val(s) as u64)
    } else {
        None
    }
}

/// Parse a run of ASCII digits as an unsigned integer.
pub fn parse_u64_digits(s: &[u8]) -> (r: Option<u64>)
    ensures
        r == spec_parse_u64(s@),
{
    if s.len() == 0 || s.len() > 18 {
        return None;
    }
    let mut acc: u64 = 0;
    let mut i: usize = 0;
    while i < s.len()
        invariant
            0 < s.len() <= 18,
            0 <= i <= s.len(),
            all_digits(s@.take(i as int)),
            acc == digits_val(s@.take(i as int)),
        decreases s.len() - i,
    {
        let b = s[i];
        if b < 48 || b > 57 {
            proof {
                assert(!is_digit(s@[i as int]));
            }
            return None;
        }
        proof {
            lemma_digits_val_bound(s@.take(i as int));
            lemma_pow10_mono(i as nat, 17);
            lemma_pow10_values();
            assert(pow10(17) * 10 == pow10(18)) by {
                reveal_with_fuel(pow10, 19);
            }
            lemma_digits_val_step(s@, i as int);
            assert(all_digits(s@.take(i as int + 1)));
        }
        acc = acc * 10 + ((b - 48) as u64);
        i = i + 1;
    }
    proof {
        assert(s@.take(s@.len() as int) =~= s@);
    }
    Some(acc)
}

} // verus!
