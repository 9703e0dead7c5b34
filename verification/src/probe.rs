//! Parsing of the duration probe's output.  The probing tool is invoked by
//! the surrounding driver; this module turns the text it printed into a
//! duration in microseconds, with zero standing for "duration unknown".

use vstd::prelude::*;
use vstd::slice::slice_subrange;
use crate::digits::all_digits;
use crate::digits::digits_val;
use crate::digits::is_digit;
use crate::digits::lemma_digits_val_bound;
use crate::digits::lemma_digits_val_step;
use crate::digits::lemma_pow10_mono;
use crate::digits::lemma_pow10_values;
use crate::digits::parse_u64_digits;

verus! {

/// True when `b` is ASCII whitespace: tab through carriage return
/// (codes 9 to 13) or space (code 32).
pub open spec fn is_space(b: u8) -> bool {
    b == 32 || 9 <= b <= 13
}

fn is_space_byte(b: u8) -> (r: bool)
    ensures
        r == is_space(b),
{
    b == 32 || (9 <= b && b <= 13)
}

/// `s` with leading and trailing ASCII whitespace removed.
pub open spec fn spec_trim(s: Seq<u8>) -> Seq<u8>
    decreases s.len(),
{
    if s.len() > 0 && is_space(s.first()) {
        spec_trim(s.drop_first())
    } else if s.len() > 0 && is_space(s.last()) {
        spec_trim(s.drop_last())
    } else {
        s
    }
}

/// Strip surrounding ASCII whitespace.
pub fn trim_spaces<'a>(s: &'a [u8]) -> (r: &'a [u8])
    ensures
        r@ == spec_trim(s@),
    decreases s@.len(),
{
    if s.len() > 0 && is_space_byte(s[0]) {
        let t = slice_subrange(s, 1, s.len());
        proof {
            assert(t@ =~= s@.drop_first());
        }
        trim_spaces(t)
    } else if s.len() > 0 && is_space_byte(s[s.len() - 1]) {
        let t = slice_subrange(s, 0, s.len() - 1);
        proof {
            assert(t@ =~= s@.drop_last());
        }
        trim_spaces(t)
    } else {
        s
    }
}

/// Index of the first dot (code 46) in `t`, or `t.len()` when there is
/// none.
pub open spec fn dot_pos(t: Seq<u8>) -> int
    decreases t.len(),
{
    if t.len() == 0 {
        0
    } else if t.first() == 46 {
        0
    } else {
        1 + dot_pos(t.drop_first())
    }
}

/// `dot_pos` points at the first dot: everything before it is not a dot,
/// and it lies within the sequence unless there is no dot at all.
pub proof fn lemma_dot_pos(t: Seq<u8>)
    ensures
        0 <= dot_pos(t) <= t.len(),
        forall|i: int| 0 <= i < dot_pos(t) ==> t[i] != 46,
        dot_pos(t) < t.len() ==> t[dot_pos(t)] == 46,
    decreases t.len(),
{
    if t.len() > 0 && t.first() != 46 {
        lemma_dot_pos(t.drop_first());
        assert(forall|i: int| 1 <= i < dot_pos(t) ==> t[i] == t.drop_first()[i - 1]);
    }
}

/// Find the first dot, or the length when there is none.
fn find_dot(t: &[u8]) -> (p: usize)
    ensures
        p as int == dot_pos(t@),
{
    proof {
        lemma_dot_pos(t@);
    }
    let mut i: usize = 0;
    while i < t.len()
        invariant
            0 <= i <= t@.len(),
            forall|j: int| 0 <= j < i ==> t@[j] != 46,
            0 <= dot_pos(t@) <= t@.len(),
            forall|j: int| 0 <= j < dot_pos(t@) ==> t@[j] != 46,
            dot_pos(t@) < t@.len() ==> t@[dot_pos(t@)] == 46,
        decreases t@.len() - i,
    {
        if t[i] == 46 {
            return i;
        }
        i = i + 1;
    }
    i
}

/// The fractional digits scaled to six places: the first six, padded with
/// zeros (code 48) on the right.
pub open spec fn pad6(f: Seq<u8>) -> Seq<u8> {
    if f.len() >= 6 {
        f.take(6)
    } else {
        f + Seq::new((6 - f.len()) as nat, |i: int| 48u8)
    }
}

/// The number of microseconds the fractional-seconds digits denote; digits
/// beyond the sixth lie below the microsecond and do not contribute.
pub open spec fn frac_micros(f: Seq<u8>) -> nat {
    digits_val(pad6(f))
}

/// The duration, in microseconds, denoted by the probe's raw output text:
/// optional surrounding whitespace, an integer-seconds part of one to
/// twelve digits, optionally followed by a dot and at least one fractional
/// digit.  `None` for anything else — a negative, empty, malformed or
/// outlandishly long value is "duration unknown".
pub open spec fn spec_duration_us(raw: Seq<u8>) -> Option<u64> {
    let t = spec_trim(raw);
    let p = dot_pos(t);
    let sec = t.take(p);
    let sec_ok = 1 <= sec.len() <= 12 && all_digits(sec);
    if p == t.len() {
        if sec_ok {
            Some((digits_val(sec) * 1_000_000) as u64)
        } else {
            None
        }
    } else {
        let frac = t.skip(p + 1);
        if sec_ok && 1 <= frac.len() && all_digits(frac) {
            Some((digits_val(sec) * 1_000_000 + frac_micros(frac)) as u64)
        } else {
            None
        }
    }
}

/// Parse the duration probe's standard output.  Returns the duration in
/// microseconds, or zero when the text denotes none ("duration unknown",
/// which disables progress reporting downstream; by design not an error).
#[verifier::loop_isolation(false)]
pub fn parse_duration_micros(raw: &[u8]) -> (us: u64)
    ensures
        us as int == (match spec_duration_us(raw@) {
            Some(v) => v as int,
            None => 0,
        }),
{
    let t = trim_spaces(raw);
    let p = find_dot(t);
    proof {
        lemma_dot_pos(t@);
    }
    if p > 12 {
        return 0;
    }
    let sec_slice = slice_subrange(t, 0, p);
    proof {
        assert(sec_slice@ =~= t@.take(p as int));
    }
    let sec_v: u64 = match parse_u64_digits(sec_slice) {
        Some(v) => v,
        None => {
            return 0;
        },
    };
    proof {
        lemma_digits_val_bound(t@.take(p as int));
        lemma_pow10_mono(p as nat, 12);
        lemma_pow10_values();
    }
    if p == t.len() {
        return sec_v * 1_000_000;
    }
    let frac_slice = slice_subrange(t, p + 1, t.len());
    proof {
        assert(frac_slice@ =~= t@.skip(p as int + 1));
    }
    if frac_slice.len() == 0 {
        return 0;
    }
    let mut j: usize = 0;
    while j < frac_slice.len()
        invariant
            0 <= j <= frac_slice@.len(),
            forall|k: int| 0 <= k < j ==> is_digit(#[trigger] frac_slice@[k]),
        decreases frac_slice@.len() - j,
    {
        let b = frac_slice[j];
        if b < 48 || b > 57 {
            proof {
                assert(!is_digit(frac_slice@[j as int]));
            }
            return 0;
        }
        j = j + 1;
    }
    let ghost padded = pad6(frac_slice@);
    proof {
        assert(all_digits(frac_slice@));
        assert(padded.len() == 6);
        assert(forall|k: int|
            0 <= k < 6 ==> #[trigger] padded[k] == (if k < frac_slice@.len() {
                frac_slice@[k]
            } else {
                48u8
            }));
        assert(all_digits(padded));
    }
    let mut facc: u64 = 0;
    let mut i: usize = 0;
    while i < 6
        invariant
            0 <= i <= 6,
            padded == pad6(frac_slice@),
            padded.len() == 6,
            all_digits(padded),
            forall|k: int|
                0 <= k < 6 ==> #[trigger] padded[k] == (if k < frac_slice@.len() {
                    frac_slice@[k]
                } else {
                    48u8
                }),
            facc == digits_val(padded.take(i as int)),
        decreases 6 - i,
    {
        let b: u8 = if i < frac_slice.len() {
            frac_slice[i]
        } else {
            48
        };
        proof {
            lemma_digits_val_bound(padded.take(i as int));
            lemma_pow10_mono(i as nat, 5);
            lemma_pow10_values();
            lemma_digits_val_step(padded, i as int);
        }
        facc = facc * 10 + ((b - 48) as u64);
        i = i + 1;
    }
    proof {
        assert(padded.take(6) =~= padded);
        lemma_digits_val_bound(padded);
        lemma_pow10_values();
    }
    sec_v * 1_000_000 + facc
}

} // verus!
