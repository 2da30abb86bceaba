//! Small value helpers used by the telemetry pipeline: the mean of a list of
//! percentages, zero padding of a unit label, and the reading of a number out
//! of a quoted "value unit" text.

use crate::text::{
    chars_of, copy_range, first_field, first_field_chars, parse_unsigned, trim, trim_chars,
    unsigned_of,
};
use vstd::prelude::*;

verus! {

/// The sum of the elements of `s`.
pub open spec fn sum_u32(s: Seq<u32>) -> nat
    decreases s.len(),
{
    if s.len() == 0 {
        0
    } else {
        sum_u32(s.drop_last()) + s.last() as nat
    }
}

/// The arithmetic mean of `v`, truncated to an integer.
pub fn avg_vecu32(v: Vec<u32>) -> (mean: u32)
    requires
        v.len() > 0,
    ensures
        mean as nat == sum_u32(v@) / v@.len(),
{
    let mut total: u128 = 0;
    let mut i: usize = 0;
    while i < v.len()
        invariant
            i <= v.len(),
            total as nat == sum_u32(v@.take(i as int)),
            total <= i * 0xffff_ffff,
        decreases v.len() - i,
    {
        proof {
            assert(v@.take(i + 1).drop_last() =~= v@.take(i as int));
            assert((i + 1) * 0xffff_ffff == i * 0xffff_ffff + 0xffff_ffff) by (nonlinear_arith);
            assert(i * 0xffff_ffff <= 0xffff_ffff_ffff_ffff * 0xffff_ffff) by (nonlinear_arith)
                requires
                    i <= 0xffff_ffff_ffff_ffff,
            ;
        }
        total = total + v[i] as u128;
        i = i + 1;
    }
    proof {
        assert(v@.take(i as int) =~= v@);
        let n = v@.len() as int;
        assert(total as int / n <= 0xffff_ffff) by (nonlinear_arith)
            requires
                n > 0,
                0 <= total as int <= n * 0xffff_ffff,
        ;
    }
    (total / v.len() as u128) as u32
}

/// The first four bytes of `label`, padded with zero bytes where `label` is
/// shorter.
pub open spec fn padded_4(label: Seq<u8>) -> Seq<u8> {
    Seq::new(
        4,
        |i: int|
            if i < label.len() {
                label[i]
            } else {
                0u8
            },
    )
}

/// Cuts or pads `barry` to exactly four bytes, padding with zero bytes.
pub fn pop_4u8(barry: &[u8]) -> (out: [u8; 4])
    ensures
        out@ == padded_4(barry@),
{
    let mut out: [u8; 4] = [0u8; 4];
    let mut i: usize = 0;
    while i < 4 && i < barry.len()
        invariant
            i <= 4,
            i <= barry@.len(),
            out@.len() == 4,
            forall|j: int| 0 <= j < i ==> out@[j] == barry@[j],
            forall|j: int| i <= j < 4 ==> out@[j] == 0u8,
        decreases 4 - i,
    {
        out[i] = barry[i];
        i = i + 1;
    }
    assert(out@ =~= padded_4(barry@));
    out
}

/// `s` without its first and its last character; empty where `s` has fewer
/// than two.
pub open spec fn strip_ends(s: Seq<char>) -> Seq<char> {
    if s.len() < 2 {
        Seq::empty()
    } else {
        s.subrange(1, s.len() - 1)
    }
}

/// The number at the head of a quoted reading such as `"4096 MiB"`: the text
/// between the first and the last character, up to its first space, without
/// white space at its ends, read as an unsigned decimal number.
pub open spec fn reading_of(s: Seq<char>) -> Option<u64> {
    unsigned_of(trim(first_field(strip_ends(s))))
}

/// Reads the number at the head of a quoted reading; `None` where no number
/// of 64 bits stands there.
pub fn nvd_r2u64(res: String) -> (number: Option<u64>)
    ensures
        number == reading_of(res@),
{
    let all = chars_of(res.as_str());
    let inner = if all.len() < 2 {
        Vec::new()
    } else {
        copy_range(&all, 1, all.len() - 1)
    };
    assert(inner@ =~= strip_ends(res@));
    let field = first_field_chars(&inner);
    let trimmed = trim_chars(&field);
    parse_unsigned(&trimmed)
}

} // verus!
