//! The engine's machine-readable progress stream: newline-delimited
//! `key=value` text.  The only key consumed is the elapsed-output-time
//! key, whose value counts microseconds; every other line is ignored,
//! which keeps the parser forward-compatible with unknown stream fields.

use vstd::prelude::*;
use vstd::slice::slice_subrange;
use crate::digits::parse_u64_digits;
use crate::digits::spec_parse_u64;

verus! {

/// The bytes of the elapsed-time key and its separator, `out_time_ms=`.
/// Despite the key's name the engine reports the value in microseconds.
pub open spec fn progress_key() -> Seq<u8> {
    seq![111u8, 117u8, 116u8, 95u8, 116u8, 105u8, 109u8, 101u8, 95u8, 109u8, 115u8, 61u8]
}

/// True when `line` begins with the elapsed-time key.
pub open spec fn spec_has_progress_key(line: Seq<u8>) -> bool {
    line.len() >= 12 && line.take(12) == progress_key()
}

/// The elapsed microseconds a progress line reports: the digits after the
/// elapsed-time key.  `None` for every other line, and for a line whose
/// value is not a plain digit run — both are ignored by the consumer.
pub open spec fn spec_elapsed_of_line(line: Seq<u8>) -> Option<u64> {
    if spec_has_progress_key(line) {
        spec_parse_u64(line.skip(12))
    } else {
        None
    }
}

/// Does `line` begin with `out_time_ms=` (spelled here in ASCII codes)?
fn has_progress_key(line: &[u8]) -> (r: bool)
    ensures
        r == spec_has_progress_key(line@),
{
    if line.len() < 12 {
        return false;
    }
    let r = line[0] == 111 && line[1] == 117 && line[2] == 116 && line[3] == 95 && line[4] == 116
        && line[5] == 105 && line[6] == 109 && line[7] == 101 && line[8] == 95 && line[9] == 109
        && line[10] == 115 && line[11] == 61;
    proof {
        if r {
            assert(line@.take(12) =~= progress_key());
        } else {
            assert(line@.take(12) != progress_key()) by {
                if line@.take(12) == progress_key() {
                    assert(line@.take(12)[0] == 111);
                    assert(line@.take(12)[1] == 117);
                    assert(line@.take(12)[2] == 116);
                    assert(line@.take(12)[3] == 95);
                    assert(line@.take(12)[4] == 116);
                    assert(line@.take(12)[5] == 105);
                    assert(line@.take(12)[6] == 109);
                    assert(line@.take(12)[7] == 101);
                    assert(line@.take(12)[8] == 95);
                    assert(line@.take(12)[9] == 109);
                    assert(line@.take(12)[10] == 115);
                    assert(line@.take(12)[11] == 61);
                }
            }
        }
    }
    r
}

/// Read one progress line: the elapsed microseconds if the line carries
/// the elapsed-time key with a digit-run value, `None` otherwise.
pub fn elapsed_of_line(line: &[u8]) -> (r: Option<u64>)
    ensures
        r == spec_elapsed_of_line(line@),
{
    if has_progress_key(line) {
        let rest = slice_subrange(line, 12, line.len());
        proof {
            assert(rest@ =~= line@.skip(12));
        }
        parse_u64_digits(rest)
    } else {
        None
    }
}

/// The completion fraction, in parts per million, of `elapsed_us`
/// microseconds out of a total of `total_us`: the quotient scaled by one
/// million and clamped at one million (the engine can report elapsed time
/// beyond the probed total; such a value reads as fully complete).
pub open spec fn spec_fraction_ppm(elapsed_us: u64, total_us: u64) -> int
    recommends
        total_us > 0,
{
    let raw = (elapsed_us as int * 1_000_000) / (total_us as int);
    if raw > 1_000_000 {
        1_000_000
    } else {
        raw
    }
}

/// Completion fraction in parts per million, clamped to one million.
pub fn completion_fraction_ppm(elapsed_us: u64, total_us: u64) -> (ppm: u32)
    requires
        total_us > 0,
    ensures
        ppm as int == spec_fraction_ppm(elapsed_us, total_us),
        ppm <= 1_000_000,
{
    let num: u128 = (elapsed_us as u128) * 1_000_000;
    let q: u128 = num / (total_us as u128);
    if q > 1_000_000 {
        1_000_000
    } else {
        q as u32
    }
}

} // verus!
