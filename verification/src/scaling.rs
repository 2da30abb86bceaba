//! The scaling encoder: a magnitude in bytes becomes a power of 1024, a
//! fixed-point value with one decimal digit, and a unit label of four bytes.

use crate::helpers::{padded_4, pop_4u8};
use crate::system_info::SystemInfo;
use vstd::prelude::*;

verus! {

/// The largest value of a 16-bit field.
pub const FIELD_MAX: u16 = 0xffff;

/// 1024 to the power `e`.
pub open spec fn pow1024(e: nat) -> nat
    decreases e,
{
    if e == 0 {
        1
    } else {
        1024 * pow1024((e - 1) as nat)
    }
}

/// The size in bytes of the unit with exponent `exp`: 1024 to that power,
/// written out for the exponents up to 4.
pub open spec fn unit_bytes(exp: u8) -> nat {
    if exp == 0 {
        1
    } else if exp == 1 {
        0x400
    } else if exp == 2 {
        0x10_0000
    } else if exp == 3 {
        0x4000_0000
    } else {
        0x100_0000_0000
    }
}

/// The exponent of the unit in which `magnitude` is shown: the largest `e`
/// from 1 to 4 with `magnitude > 1024^e`, and 0 where there is none.
pub open spec fn exponent_of(magnitude: u64) -> u8 {
    if magnitude > unit_bytes(4) {
        4
    } else if magnitude > unit_bytes(3) {
        3
    } else if magnitude > unit_bytes(2) {
        2
    } else if magnitude > unit_bytes(1) {
        1
    } else {
        0
    }
}

/// `magnitude * 10 / unit`, rounded to the nearest integer, a half rounded
/// up.
pub open spec fn rounded_tenths(magnitude: nat, unit: nat) -> nat {
    (20 * magnitude + unit) / (2 * unit)
}

/// `rounded_tenths` for the unit with exponent `exp`, each divisor written
/// out.
pub open spec fn tenths_at(magnitude: nat, exp: u8) -> nat {
    if exp == 0 {
        (20 * magnitude + 1) / 2
    } else if exp == 1 {
        (20 * magnitude + 0x400) / 0x800
    } else if exp == 2 {
        (20 * magnitude + 0x10_0000) / 0x20_0000
    } else if exp == 3 {
        (20 * magnitude + 0x4000_0000) / 0x8000_0000
    } else {
        (20 * magnitude + 0x100_0000_0000) / 0x200_0000_0000
    }
}

/// The fixed-point value of `magnitude` at its exponent, held to 16 bits.
pub open spec fn tenths_of(magnitude: u64) -> u16 {
    let exact = tenths_at(magnitude as nat, exponent_of(magnitude));
    if exact > FIELD_MAX {
        FIELD_MAX
    } else {
        exact as u16
    }
}

/// The name of the unit with exponent `exp`.
pub open spec fn unit_name(exp: u8) -> Seq<char> {
    if exp == 0 {
        seq!['B']
    } else if exp == 1 {
        seq!['K', 'B']
    } else if exp == 2 {
        seq!['M', 'B']
    } else if exp == 3 {
        seq!['G', 'B']
    } else if exp == 4 {
        seq!['T', 'B']
    } else {
        seq!['U', 'B']
    }
}

/// The unit label on the wire: the bytes of the unit's name, padded with
/// zero bytes to four.
pub open spec fn unit_label(exp: u8) -> Seq<u8> {
    padded_4(unit_name(exp).map_values(|c: char| c as u8))
}

/// The powers of 1024 that the encoder uses, written out.
pub proof fn lemma_pow1024_values()
    ensures
        pow1024(0) == 1,
        pow1024(1) == 0x400,
        pow1024(2) == 0x10_0000,
        pow1024(3) == 0x4000_0000,
        pow1024(4) == 0x100_0000_0000,
{
    reveal_with_fuel(pow1024, 5);
}

/// The unit sizes are the powers of 1024, and the fixed-point value is
/// `magnitude * 10 / 1024^exp`, rounded to the nearest integer.
pub proof fn lemma_units_are_powers(magnitude: nat, exp: u8)
    requires
        exp <= 4,
    ensures
        unit_bytes(exp) == pow1024(exp as nat),
        tenths_at(magnitude, exp) == rounded_tenths(magnitude, pow1024(exp as nat)),
{
    lemma_pow1024_values();
}

/// At a power of 1024 the exponent is still the one below; one byte more
/// reaches the power's own exponent.
pub proof fn lemma_scale_boundary(e: nat)
    requires
        1 <= e <= 4,
    ensures
        exponent_of(pow1024(e) as u64) == e - 1,
        exponent_of((pow1024(e) + 1) as u64) == e,
{
    lemma_pow1024_values();
}

/// No exponent up to 4 whose power lies below `magnitude` is larger than the
/// one chosen.
pub proof fn lemma_exponent_is_largest(magnitude: u64, e: nat)
    requires
        e <= 4,
        magnitude > pow1024(e),
    ensures
        e <= exponent_of(magnitude),
{
    lemma_pow1024_values();
}

/// The chosen exponent's power lies below every magnitude above 1; a
/// magnitude of 0 or 1 lies below no power and has exponent 0.
pub proof fn lemma_exponent_qualifies(magnitude: u64)
    ensures
        magnitude > 1 ==> magnitude > pow1024(exponent_of(magnitude) as nat),
        magnitude <= 1 ==> exponent_of(magnitude) == 0,
        exponent_of(magnitude) <= 4,
{
    lemma_pow1024_values();
}

/// `rounded_tenths` is the integer nearest to `10 * magnitude / unit`: the
/// two differ by at most a half, and a difference of exactly a half is
/// rounded up.
pub proof fn lemma_rounded_tenths_nearest(magnitude: nat, unit: nat)
    requires
        unit > 0,
    ensures
        2 * rounded_tenths(magnitude, unit) * unit - unit <= 20 * magnitude,
        20 * magnitude < 2 * rounded_tenths(magnitude, unit) * unit + unit,
{
    let n = (20 * magnitude + unit) as int;
    let d = (2 * unit) as int;
    let t = n / d;
    assert(t * d <= n < t * d + d) by (nonlinear_arith)
        requires
            d > 0,
            t == n / d,
    ;
    assert(t * d == 2 * t * unit) by (nonlinear_arith)
        requires
            d == 2 * unit,
    ;
}

/// The fixed-point value is the nearest integer to ten times the magnitude
/// in its unit, unless that exceeds the field, which then holds its limit.
pub proof fn lemma_tenths_rounded(magnitude: u64)
    ensures
        tenths_of(magnitude) as int == if rounded_tenths(
            magnitude as nat,
            pow1024(exponent_of(magnitude) as nat),
        ) > FIELD_MAX {
            FIELD_MAX as int
        } else {
            rounded_tenths(magnitude as nat, pow1024(exponent_of(magnitude) as nat)) as int
        },
{
    lemma_units_are_powers(magnitude as nat, exponent_of(magnitude));
}

/// Below the exponent 4 the fixed-point value is exact and at most 10240;
/// only at the exponent 4 can it meet the field's limit.
pub proof fn lemma_tenths_unclamped(magnitude: u64)
    requires
        exponent_of(magnitude) < 4,
    ensures
        tenths_of(magnitude) == rounded_tenths(
            magnitude as nat,
            pow1024(exponent_of(magnitude) as nat),
        ),
        tenths_of(magnitude) <= 10240,
{
    lemma_units_are_powers(magnitude as nat, exponent_of(magnitude));
}

/// The five unit labels, byte by byte.
pub proof fn lemma_unit_labels()
    ensures
        unit_label(0) == seq![0x42u8, 0u8, 0u8, 0u8],
        unit_label(1) == seq![0x4bu8, 0x42u8, 0u8, 0u8],
        unit_label(2) == seq![0x4du8, 0x42u8, 0u8, 0u8],
        unit_label(3) == seq![0x47u8, 0x42u8, 0u8, 0u8],
        unit_label(4) == seq![0x54u8, 0x42u8, 0u8, 0u8],
{
    assert(unit_label(0) =~= seq![0x42u8, 0u8, 0u8, 0u8]);
    assert(unit_label(1) =~= seq![0x4bu8, 0x42u8, 0u8, 0u8]);
    assert(unit_label(2) =~= seq![0x4du8, 0x42u8, 0u8, 0u8]);
    assert(unit_label(3) =~= seq![0x47u8, 0x42u8, 0u8, 0u8]);
    assert(unit_label(4) =~= seq![0x54u8, 0x42u8, 0u8, 0u8]);
}

/// What the scaling encoder makes of a magnitude.
#[derive(Clone, Copy, Debug, PartialEq, Eq)]
pub struct Scaled {
    /// The power of 1024 of the unit, from 0 to 4.
    pub exponent: u8,
    /// Ten times the magnitude in that unit, rounded, at most `FIELD_MAX`.
    pub tenths: u16,
    /// The unit's name, zero padded.
    pub unit: [u8; 4],
}

/// The exponent of the unit in which `magnitude` is shown.
pub fn exponent(magnitude: u64) -> (exp: u8)
    ensures
        exp == exponent_of(magnitude),
        exp <= 4,
{
    if magnitude > 0x100_0000_0000 {
        4
    } else if magnitude > 0x4000_0000 {
        3
    } else if magnitude > 0x10_0000 {
        2
    } else if magnitude > 0x400 {
        1
    } else {
        0
    }
}

/// 1024 to the power `exp`.
pub fn unit_size(exp: u8) -> (size: u64)
    requires
        exp <= 4,
    ensures
        size == unit_bytes(exp),
{
    if exp == 0 {
        1
    } else if exp == 1 {
        0x400
    } else if exp == 2 {
        0x10_0000
    } else if exp == 3 {
        0x4000_0000
    } else {
        0x100_0000_0000
    }
}

/// Scales a magnitude in bytes to its unit.
pub fn scale(magnitude: u64) -> (scaled: Scaled)
    ensures
        scaled.exponent == exponent_of(magnitude),
        scaled.tenths == tenths_of(magnitude),
        scaled.unit@ == unit_label(scaled.exponent),
{
    let exp = exponent(magnitude);
    let size: u128 = unit_size(exp) as u128;
    let exact: u128 = (20 * (magnitude as u128) + size) / (2 * size);
    assert(exact == tenths_at(magnitude as nat, exp));
    let tenths: u16 = if exact > 0xffff {
        FIELD_MAX
    } else {
        exact as u16
    };
    let name = SystemInfo::get_unit(exp);
    let bytes = name.as_str().as_bytes();
    proof {
        let chars = unit_name(exp);
        assert(vstd::utf8::is_ascii_chars(chars));
        vstd::utf8::is_ascii_chars_encode_utf8(chars);
        assert(bytes@ =~= chars.map_values(|c: char| c as u8));
    }
    Scaled { exponent: exp, tenths, unit: pop_4u8(bytes) }
}

} // verus!
