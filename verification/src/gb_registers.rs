use vstd::prelude::*;

use crate::arith::{wadd16, wsub16};
use crate::gb_registers_flags::GbFlagsRegister;

verus! {

/// A 16-bit register-pair value composed big-endian from two 8-bit cells:
/// the high byte first.
pub open spec fn word_from_bytes(hi: u8, lo: u8) -> u16 {
    ((hi as u16) << 8) | (lo as u16)
}

/// The high byte of a 16-bit value.
pub open spec fn word_high_byte(v: u16) -> u8 {
    ((v & 0xFF00) >> 8) as u8
}

/// The low byte of a 16-bit value.
pub open spec fn word_low_byte(v: u16) -> u8 {
    (v & 0x00FF) as u8
}

/// Register-pair view law, one direction: composing two bytes big-endian and
/// reading the halves back yields the bytes exactly.
pub proof fn lemma_pair_split_of_join(hi: u8, lo: u8)
    by (bit_vector)
    ensures
        word_high_byte(word_from_bytes(hi, lo)) == hi,
        word_low_byte(word_from_bytes(hi, lo)) == lo,
{
}

/// Register-pair view law, the other direction: splitting a 16-bit value
/// into its two bytes and composing them big-endian yields the value back.
pub proof fn lemma_pair_join_of_split(v: u16)
    by (bit_vector)
    ensures
        word_from_bytes(word_high_byte(v), word_low_byte(v)) == v,
{
}

/// Register-pair view law for AF: the pair composes the accumulator with
/// the packed flags, whose bottom nibble is always zero, so the law holds
/// of exactly the low bytes whose bottom nibble is zero (for any other low
/// byte those four bits read back as zero).
pub proof fn lemma_af_pair_view(regs: GbRegisters, hi: u8, lo: u8)
    requires
        lo & 0x0F == 0,
    ensures
        regs.spec_set_af(word_from_bytes(hi, lo)).a == hi,
        regs.spec_set_af(word_from_bytes(hi, lo)).f.spec_as_byte() == lo,
        regs.spec_set_af(word_from_bytes(hi, lo)).spec_af() == word_from_bytes(hi, lo),
{
    lemma_pair_split_of_join(hi, lo);
    assert((if (lo & 0x80 != 0) {
        0x80u8
    } else {
        0u8
    }) | (if (lo & 0x40 != 0) {
        0x40u8
    } else {
        0u8
    }) | (if (lo & 0x20 != 0) {
        0x20u8
    } else {
        0u8
    }) | (if (lo & 0x10 != 0) {
        0x10u8
    } else {
        0u8
    }) == lo) by (bit_vector)
        requires
            lo & 0x0F == 0,
    ;
}

/// The eight 8-bit general registers, the flags, and the two free-running
/// 16-bit counters.  The pairs AF, BC, DE and HL are views over the 8-bit
/// cells, not separate storage; AF's low byte is always the packed flags.
#[derive(Clone, Copy, Debug)]
pub struct GbRegisters {
    pub a: u8,
    pub b: u8,
    pub c: u8,
    pub d: u8,
    pub e: u8,
    pub h: u8,
    pub l: u8,
    pub f: GbFlagsRegister,
    pub stack_pointer: u16,
    pub program_counter: u16,
}

impl GbRegisters {
    pub open spec fn spec_af(self) -> u16 {
        word_from_bytes(self.a, self.f.spec_as_byte())
    }

    pub open spec fn spec_bc(self) -> u16 {
        word_from_bytes(self.b, self.c)
    }

    pub open spec fn spec_de(self) -> u16 {
        word_from_bytes(self.d, self.e)
    }

    pub open spec fn spec_hl(self) -> u16 {
        word_from_bytes(self.h, self.l)
    }

    pub open spec fn spec_set_af(self, new_val: u16) -> GbRegisters {
        GbRegisters {
            a: word_high_byte(new_val),
            f: GbFlagsRegister::spec_from_byte(word_low_byte(new_val)),
            ..self
        }
    }

    pub open spec fn spec_set_bc(self, new_val: u16) -> GbRegisters {
        GbRegisters { b: word_high_byte(new_val), c: word_low_byte(new_val), ..self }
    }

    pub open spec fn spec_set_de(self, new_val: u16) -> GbRegisters {
        GbRegisters { d: word_high_byte(new_val), e: word_low_byte(new_val), ..self }
    }

    pub open spec fn spec_set_hl(self, new_val: u16) -> GbRegisters {
        GbRegisters { h: word_high_byte(new_val), l: word_low_byte(new_val), ..self }
    }

    /// The pair selected by the 2-bit `r16` field: BC, DE, HL or SP.
    pub open spec fn spec_r16(self, register_id: u8) -> u16 {
        if register_id == 0 {
            self.spec_bc()
        } else if register_id == 1 {
            self.spec_de()
        } else if register_id == 2 {
            self.spec_hl()
        } else {
            self.stack_pointer
        }
    }

    pub open spec fn spec_set_r16(self, register_id: u8, new_val: u16) -> GbRegisters {
        if register_id == 0 {
            self.spec_set_bc(new_val)
        } else if register_id == 1 {
            self.spec_set_de(new_val)
        } else if register_id == 2 {
            self.spec_set_hl(new_val)
        } else {
            GbRegisters { stack_pointer: new_val, ..self }
        }
    }

    /// The address selected by the 2-bit `r16mem` field: BC, DE, HL+ or HL-.
    /// The HL variants yield HL itself; the post-increment or post-decrement
    /// of HL is `spec_r16mem_regs`.
    pub open spec fn spec_r16mem_value(self, register_id: u8) -> u16 {
        if register_id == 0 {
            self.spec_bc()
        } else if register_id == 1 {
            self.spec_de()
        } else {
            self.spec_hl()
        }
    }

    /// The register file after an `r16mem` access: HL is incremented by the
    /// HL+ variant and decremented by the HL- variant, wrapping; BC and DE
    /// accesses leave every register unchanged.
    pub open spec fn spec_r16mem_regs(self, register_id: u8) -> GbRegisters {
        if register_id == 2 {
            self.spec_set_hl(wadd16(self.spec_hl(), 1))
        } else if register_id == 3 {
            self.spec_set_hl(wsub16(self.spec_hl(), 1))
        } else {
            self
        }
    }

    /// The pair selected by the 2-bit `r16stk` field used by PUSH and POP:
    /// BC, DE, HL or AF.
    pub open spec fn spec_r16stk(self, register_id: u8) -> u16 {
        if register_id == 0 {
            self.spec_bc()
        } else if register_id == 1 {
            self.spec_de()
        } else if register_id == 2 {
            self.spec_hl()
        } else {
            self.spec_af()
        }
    }

    pub open spec fn spec_set_r16stk(self, register_id: u8, new_val: u16) -> GbRegisters {
        if register_id == 0 {
            self.spec_set_bc(new_val)
        } else if register_id == 1 {
            self.spec_set_de(new_val)
        } else if register_id == 2 {
            self.spec_set_hl(new_val)
        } else {
            self.spec_set_af(new_val)
        }
    }

    /// The 8-bit register selected by a 3-bit `r8` field, for the seven ids
    /// that name a register cell.  Id 6 is the memory-through-HL operand and
    /// has no register cell.
    pub open spec fn spec_r8(self, register_id: u8) -> u8 {
        if register_id == 0 {
            self.b
        } else if register_id == 1 {
            self.c
        } else if register_id == 2 {
            self.d
        } else if register_id == 3 {
            self.e
        } else if register_id == 4 {
            self.h
        } else if register_id == 5 {
            self.l
        } else {
            self.a
        }
    }

    pub open spec fn spec_set_r8(self, register_id: u8, new_value: u8) -> GbRegisters {
        if register_id == 0 {
            GbRegisters { b: new_value, ..self }
        } else if register_id == 1 {
            GbRegisters { c: new_value, ..self }
        } else if register_id == 2 {
            GbRegisters { d: new_value, ..self }
        } else if register_id == 3 {
            GbRegisters { e: new_value, ..self }
        } else if register_id == 4 {
            GbRegisters { h: new_value, ..self }
        } else if register_id == 5 {
            GbRegisters { l: new_value, ..self }
        } else {
            GbRegisters { a: new_value, ..self }
        }
    }

    pub fn get_af(&self) -> (r: u16)
        ensures
            r == self.spec_af(),
    {
        ((self.a as u16) << 8) | (self.f.get_as_f_register() as u16)
    }

    pub fn get_bc(&self) -> (r: u16)
        ensures
            r == self.spec_bc(),
    {
        ((self.b as u16) << 8) | (self.c as u16)
    }

    pub fn get_de(&self) -> (r: u16)
        ensures
            r == self.spec_de(),
    {
        ((self.d as u16) << 8) | (self.e as u16)
    }

    pub fn get_hl(&self) -> (r: u16)
        ensures
            r == self.spec_hl(),
    {
        ((self.h as u16) << 8) | (self.l as u16)
    }

    pub fn set_af(&mut self, new_val: u16)
        ensures
            *final(self) == old(self).spec_set_af(new_val),
    {
        self.a = ((new_val & 0xFF00) >> 8) as u8;
        self.f.set_as_f_register((new_val & 0x00FF) as u8);
    }

    pub fn set_bc(&mut self, new_val: u16)
        ensures
            *final(self) == old(self).spec_set_bc(new_val),
    {
        self.b = ((new_val & 0xFF00) >> 8) as u8;
        self.c = (new_val & 0x00FF) as u8;
    }

    pub fn set_de(&mut self, new_val: u16)
        ensures
            *final(self) == old(self).spec_set_de(new_val),
    {
        self.d = ((new_val & 0xFF00) >> 8) as u8;
        self.e = (new_val & 0x00FF) as u8;
    }

    pub fn set_hl(&mut self, new_val: u16)
        ensures
            *final(self) == old(self).spec_set_hl(new_val),
    {
        self.h = ((new_val & 0xFF00) >> 8) as u8;
        self.l = (new_val & 0x00FF) as u8;
    }

    pub fn get_r16(&self, register_id: u8) -> (r: u16)
        requires
            register_id < 4,
        ensures
            r == self.spec_r16(register_id),
    {
        if register_id == 0 {
            self.get_bc()
        } else if register_id == 1 {
            self.get_de()
        } else if register_id == 2 {
            self.get_hl()
        } else {
            self.stack_pointer
        }
    }

    pub fn set_r16(&mut self, register_id: u8, new_val: u16)
        requires
            register_id < 4,
        ensures
            *final(self) == old(self).spec_set_r16(register_id, new_val),
    {
        if register_id == 0 {
            self.set_bc(new_val);
        } else if register_id == 1 {
            self.set_de(new_val);
        } else if register_id == 2 {
            self.set_hl(new_val);
        } else {
            self.stack_pointer = new_val;
        }
    }

    /// Reads the pair selected by an `r16mem` field and applies the HL
    /// post-increment or post-decrement side effect of the HL+ / HL-
    /// variants.
    pub fn get_r16mem(&mut self, register_id: u8) -> (r: u16)
        requires
            register_id < 4,
        ensures
            r == old(self).spec_r16mem_value(register_id),
            *final(self) == old(self).spec_r16mem_regs(register_id),
    {
        if register_id == 0 {
            self.get_bc()
        } else if register_id == 1 {
            self.get_de()
        } else if register_id == 2 {
            let ret_val: u16 = self.get_hl();
            self.set_hl(ret_val.wrapping_add(1));
            ret_val
        } else {
            let ret_val: u16 = self.get_hl();
            self.set_hl(ret_val.wrapping_sub(1));
            ret_val
        }
    }

    pub fn get_r16stk(&self, register_id: u8) -> (r: u16)
        requires
            register_id < 4,
        ensures
            r == self.spec_r16stk(register_id),
    {
        if register_id == 0 {
            self.get_bc()
        } else if register_id == 1 {
            self.get_de()
        } else if register_id == 2 {
            self.get_hl()
        } else {
            self.get_af()
        }
    }

    pub fn set_r16stk(&mut self, register_id: u8, new_value: u16)
        requires
            register_id < 4,
        ensures
            *final(self) == old(self).spec_set_r16stk(register_id, new_value),
    {
        if register_id == 0 {
            self.set_bc(new_value);
        } else if register_id == 1 {
            self.set_de(new_value);
        } else if register_id == 2 {
            self.set_hl(new_value);
        } else {
            self.set_af(new_value);
        }
    }

    /// Reads the register cell named by a 3-bit `r8` field.  Id 6 is the
    /// memory-through-HL operand, which is not a register cell: the owner of
    /// the memory routes it through the indirect path instead.
    pub fn internal_get_r8(&self, register_id: u8) -> (r: u8)
        requires
            register_id < 8,
            register_id != 6,
        ensures
            r == self.spec_r8(register_id),
    {
        if register_id == 0 {
            self.b
        } else if register_id == 1 {
            self.c
        } else if register_id == 2 {
            self.d
        } else if register_id == 3 {
            self.e
        } else if register_id == 4 {
            self.h
        } else if register_id == 5 {
            self.l
        } else {
            self.a
        }
    }

    /// Writes the register cell named by a 3-bit `r8` field; id 6 is routed
    /// through memory by the owner of the memory instead.
    pub fn internal_set_r8(&mut self, register_id: u8, new_value: u8)
        requires
            register_id < 8,
            register_id != 6,
        ensures
            *final(self) == old(self).spec_set_r8(register_id, new_value),
    {
        if register_id == 0 {
            self.b = new_value;
        } else if register_id == 1 {
            self.c = new_value;
        } else if register_id == 2 {
            self.d = new_value;
        } else if register_id == 3 {
            self.e = new_value;
        } else if register_id == 4 {
            self.h = new_value;
        } else if register_id == 5 {
            self.l = new_value;
        } else {
            self.a = new_value;
        }
    }
}

} // verus!
