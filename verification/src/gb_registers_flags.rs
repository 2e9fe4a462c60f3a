use vstd::prelude::*;

verus! {

/// The four condition bits of the CPU: Zero, Subtract, Half-carry and Carry.
///
/// They pack into the top nibble of the F register byte (bit 7 = Zero,
/// bit 6 = Subtract, bit 5 = Half-carry, bit 4 = Carry); the bottom nibble
/// of that byte is always zero.
#[derive(Clone, Copy, Debug)]
pub struct GbFlagsRegister {
    /// Zero flag
    pub z: bool,
    /// Subtraction flag (BCD)
    pub n: bool,
    /// Half Carry flag (BCD)
    pub h: bool,
    /// Carry flag
    pub c: bool,
}

impl GbFlagsRegister {
    /// The packed byte form of the flags: each flag is one bit of the top
    /// nibble, the bottom nibble is zero.
    pub open spec fn spec_as_byte(self) -> u8 {
        (if self.z { 0x80u8 } else { 0u8 }) | (if self.n { 0x40u8 } else { 0u8 })
            | (if self.h { 0x20u8 } else { 0u8 }) | (if self.c { 0x10u8 } else { 0u8 })
    }

    /// The flags encoded in the top nibble of `byte`; the bottom nibble is
    /// ignored.
    pub open spec fn spec_from_byte(byte: u8) -> GbFlagsRegister {
        GbFlagsRegister {
            z: byte & 0x80 != 0,
            n: byte & 0x40 != 0,
            h: byte & 0x20 != 0,
            c: byte & 0x10 != 0,
        }
    }

    /// The branch condition selected by a 2-bit condition code:
    /// 0 = not-Zero, 1 = Zero, 2 = not-Carry, 3 = Carry.
    pub open spec fn spec_condition(self, condition_id: u8) -> bool {
        if condition_id == 0 {
            !self.z
        } else if condition_id == 1 {
            self.z
        } else if condition_id == 2 {
            !self.c
        } else {
            self.c
        }
    }

    /// Packs the four flags into their byte form (top nibble).
    pub fn get_as_f_register(&self) -> (r: u8)
        ensures
            r == self.spec_as_byte(),
    {
        (if self.z { 0x80u8 } else { 0u8 }) | (if self.n { 0x40u8 } else { 0u8 })
            | (if self.h { 0x20u8 } else { 0u8 }) | (if self.c { 0x10u8 } else { 0u8 })
    }

    /// Replaces the four flags with the bits of the top nibble of `new_val`.
    pub fn set_as_f_register(&mut self, new_val: u8)
        ensures
            *final(self) == GbFlagsRegister::spec_from_byte(new_val),
    {
        self.z = new_val & 0x80 != 0;
        self.n = new_val & 0x40 != 0;
        self.h = new_val & 0x20 != 0;
        self.c = new_val & 0x10 != 0;
    }

    /// Evaluates the shared 2-bit condition code of every conditional
    /// branch, call and return.
    pub fn check_condition(&self, condition_id: u8) -> (r: bool)
        requires
            condition_id < 4,
        ensures
            r == self.spec_condition(condition_id),
    {
        if condition_id == 0 {
            !self.z
        } else if condition_id == 1 {
            self.z
        } else if condition_id == 2 {
            !self.c
        } else {
            self.c
        }
    }
}

} // verus!
