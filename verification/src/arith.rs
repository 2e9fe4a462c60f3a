use vstd::prelude::*;

verus! {

/// 16-bit addition wrapping modulo 65536.  The program counter, the stack
/// pointer and the register pairs are free-running 16-bit values: wraparound
/// is required behaviour, not an edge case.
pub open spec fn wadd16(x: u16, y: u16) -> u16 {
    if x + y > 0xFFFF {
        (x + y - 0x10000) as u16
    } else {
        (x + y) as u16
    }
}

/// 16-bit subtraction wrapping modulo 65536.
pub open spec fn wsub16(x: u16, y: u16) -> u16 {
    if x - y < 0 {
        (x - y + 0x10000) as u16
    } else {
        (x - y) as u16
    }
}

/// 8-bit addition wrapping modulo 256.
pub open spec fn wadd8(x: u8, y: u8) -> u8 {
    if x + y > 0xFF {
        (x + y - 0x100) as u8
    } else {
        (x + y) as u8
    }
}

/// 8-bit subtraction wrapping modulo 256.
pub open spec fn wsub8(x: u8, y: u8) -> u8 {
    if x - y < 0 {
        (x - y + 0x100) as u8
    } else {
        (x - y) as u8
    }
}

/// A fetched displacement byte reinterpreted as a signed 8-bit offset and
/// sign-extended to the 16 bits of the program counter or stack pointer:
/// adding the result modulo 65536 adds the signed displacement.
pub open spec fn sign_extend_16(b: u8) -> u16 {
    if b < 0x80 {
        b as u16
    } else {
        (b + 0xFF00) as u16
    }
}

/// Whether adding the low nibbles of `a` and `b` carries out of bit 3.
pub open spec fn spec_half_carry_add(a: u8, b: u8) -> bool {
    (a & 0x0F) + (b & 0x0F) > 0x0F
}

/// Whether adding the low nibbles of `a` and `b` together with a carry-in
/// carries out of bit 3.
pub open spec fn spec_half_carry_adc(a: u8, b: u8, carry_in: u8) -> bool {
    (a & 0x0F) + (b & 0x0F) + carry_in > 0x0F
}

/// Whether subtracting the low nibble of `b` from the low nibble of `a`
/// borrows out of bit 3.
pub open spec fn spec_half_carry_sub(a: u8, b: u8) -> bool {
    (a & 0x0F) < (b & 0x0F)
}

/// Whether subtracting the low nibble of `b` and a carry-in from the low
/// nibble of `a` borrows out of bit 3.
pub open spec fn spec_half_carry_sbc(a: u8, b: u8, carry_in: u8) -> bool {
    (a & 0x0F) < (b & 0x0F) + carry_in
}

/// Whether adding the low bytes of the 16-bit values `a` and `b` carries out
/// of bit 7.  This is the half-carry rule of the 16-bit `ADD HL,r16` family.
pub open spec fn spec_half_carry_word_add(a: u16, b: u16) -> bool {
    (a & 0xFF) + (b & 0xFF) > 0xFF
}

/// Bounds of the register-id and condition-code fields extracted from an
/// opcode byte: a 3-bit field is below 8, a 2-bit field below 4.
pub proof fn lemma_mask_bounds(op: u8)
    by (bit_vector)
    ensures
        (op & 0x07) < 8,
        ((op & 0x38) >> 3) < 8,
        ((op & 0x30) >> 4) < 4,
        ((op & 0x18) >> 3) < 4,
{
}

/// Half-carry of an 8-bit addition: whether the low nibbles alone would
/// carry out of bit 3.
pub fn calculate_byte_half_carry_add(a: u8, b: u8) -> (r: bool)
    ensures
        r == spec_half_carry_add(a, b),
{
    ((a & 0x0F) as u16) + ((b & 0x0F) as u16) > 0x0F
}

/// Half-carry of a 16-bit addition: whether the low bytes alone would carry
/// out of bit 7.
pub fn calculate_word_half_carry_add(a: u16, b: u16) -> (r: bool)
    ensures
        r == spec_half_carry_word_add(a, b),
{
    ((a & 0xFF) as u32) + ((b & 0xFF) as u32) > 0xFF
}

/// Half-carry (borrow) of an 8-bit subtraction: whether subtracting the low
/// nibbles alone would borrow out of bit 3.
pub fn calculate_byte_half_carry_sub(a: u8, b: u8) -> (r: bool)
    ensures
        r == spec_half_carry_sub(a, b),
{
    (a & 0x0F) < (b & 0x0F)
}

} // verus!
