//! Byte and word composition helpers, bit access, and the flagged 8-bit and
//! 16-bit additions and subtractions that the execution engine funnels
//! arithmetic through.
use vstd::prelude::*;

verus! {

/// The 16-bit word whose high byte is `h` and whose low byte is `l`.
pub open spec fn spec_word16(h: u8, l: u8) -> u16 {
    (256 * (h as int) + (l as int)) as u16
}

/// The low byte of a 16-bit word.
pub open spec fn spec_low_byte(v: u16) -> u8 {
    (v % 256) as u8
}

/// The high byte of a 16-bit word.
pub open spec fn spec_high_byte(v: u16) -> u8 {
    (v / 256) as u8
}

/// The low four bits of a byte.
pub open spec fn spec_low_nibble(v: u8) -> u8 {
    v % 16
}

/// The high four bits of a byte, shifted down.
pub open spec fn spec_high_nibble(v: u8) -> u8 {
    v / 16
}

/// Whether bit `bit` (0 = least significant) of `v` is set.
pub open spec fn bit_set(v: u8, bit: u8) -> bool {
    v & (1u8 << bit) != 0
}

/// `v` with bit `bit` forced to `val` and every other bit kept.
pub open spec fn spec_set_bit(v: u8, bit: u8, val: bool) -> u8 {
    if val {
        v | (1u8 << bit)
    } else {
        v & !(1u8 << bit)
    }
}

/// 8-bit addition with the half-carry (bit 3) and carry (bit 7) flags.
pub open spec fn spec_add8(a: u8, b: u8) -> (u8, bool, bool) {
    (((a + b) % 256) as u8, (a & 0x0f) + (b & 0x0f) > 0x0f, a + b > 255)
}

/// 8-bit subtraction with the half-borrow (bit 4) and borrow (bit 8) flags.
pub open spec fn spec_sub8(a: u8, b: u8) -> (u8, bool, bool) {
    (((a - b) % 256) as u8, (b & 0x0f) > (a & 0x0f), b > a)
}

/// 16-bit addition with the half-carry taken across bit 11 (the low twelve
/// bits) and the carry across bit 15.
pub open spec fn spec_add16(a: u16, b: u16) -> (u16, bool, bool) {
    (
        ((a + b) % 0x10000) as u16,
        (a & 0x0fff) + (b & 0x0fff) > 0x0fff,
        a + b > 0xffff,
    )
}

/// Compose a byte from two nibbles: `h` lands in the high four bits.
pub fn make_word8(h: u8, l: u8) -> (r: u8)
    ensures
        r == ((h << 4) | l),
        h < 16 && l < 16 ==> r == 16 * h + l,
{
    let r = (h << 4) | l;
    assert(h < 16 && l < 16 ==> ((h << 4) | l) as int == 16 * h + l) by (bit_vector);
    r
}

/// Compose a 16-bit word from a high and a low byte.
pub fn make_word16(h: u8, l: u8) -> (r: u16)
    ensures
        r == spec_word16(h, l),
{
    let r = ((h as u16) << 8) | (l as u16);
    assert((((h as u16) << 8) | (l as u16)) as int == 256 * (h as int) + (l as int))
        by (bit_vector);
    r
}

/// The low byte of a 16-bit word.
pub fn low_byte(v: u16) -> (r: u8)
    ensures
        r == spec_low_byte(v),
{
    assert(v as u8 == (v % 256) as u8) by (bit_vector);
    v as u8
}

/// The high byte of a 16-bit word.
pub fn high_byte(v: u16) -> (r: u8)
    ensures
        r == spec_high_byte(v),
{
    assert((v >> 8) as u8 == (v / 256) as u8) by (bit_vector);
    (v >> 8) as u8
}

/// The low nibble of a byte.
pub fn low_nibble(v: u8) -> (r: u8)
    ensures
        r == spec_low_nibble(v),
{
    assert(v & 0x0f == v % 16) by (bit_vector);
    v & 0x0f
}

/// The high nibble of a byte.
pub fn high_nibble(v: u8) -> (r: u8)
    ensures
        r == spec_high_nibble(v),
{
    assert(v >> 4 == v / 16) by (bit_vector);
    v >> 4
}

/// Test one bit of a byte.
pub fn get_bit(v: u8, bit: u8) -> (r: bool)
    requires
        bit < 8,
    ensures
        r == bit_set(v, bit),
{
    v & (1u8 << bit) != 0
}

/// Set or clear one bit of a byte.
pub fn set_bit(v: u8, bit: u8, val: bool) -> (r: u8)
    requires
        bit < 8,
    ensures
        r == spec_set_bit(v, bit, val),
{
    if val {
        v | (1u8 << bit)
    } else {
        v & !(1u8 << bit)
    }
}

/// Add two bytes; returns the wrapped sum, the half-carry out of bit 3, and
/// the carry out of bit 7.
pub fn add8(a: u8, b: u8) -> (r: (u8, bool, bool))
    ensures
        r == spec_add8(a, b),
{
    assert((a & 0x0f) <= 0x0f && (b & 0x0f) <= 0x0f) by (bit_vector);
    (a.wrapping_add(b), (a & 0x0f) + (b & 0x0f) > 0x0f, a as u16 + b as u16 > 0xff)
}

/// Subtract `b` from `a`; returns the wrapped difference, the half-borrow
/// into bit 4, and the full borrow.
pub fn sub8(a: u8, b: u8) -> (r: (u8, bool, bool))
    ensures
        r == spec_sub8(a, b),
{
    (a.wrapping_sub(b), (b & 0x0f) > (a & 0x0f), b > a)
}

/// Add two 16-bit words; returns the wrapped sum, the half-carry out of
/// bit 11, and the carry out of bit 15.
pub fn add16(a: u16, b: u16) -> (r: (u16, bool, bool))
    ensures
        r == spec_add16(a, b),
{
    assert((a & 0x0fff) <= 0x0fff && (b & 0x0fff) <= 0x0fff) by (bit_vector);
    (
        a.wrapping_add(b),
        (a & 0x0fff) + (b & 0x0fff) > 0x0fff,
        a as u32 + b as u32 > 0xffff,
    )
}

} // verus!
