use vstd::prelude::*;

use crate::arith::{wadd16, wsub16};
use crate::gb_memory::{
    mem_read, mem_write, GbMemory, DIV_REGISTER_LOCATION, JOYP_LOCATION, MEMORY_SIZE,
};
use crate::gb_registers::{
    lemma_pair_join_of_split, word_from_bytes, word_high_byte, word_low_byte, GbRegisters,
};
use crate::gb_registers_flags::GbFlagsRegister;

verus! {

/// The mathematical state of the whole machine: the register file, the
/// 64KB byte space, the global interrupt-enable latch and the halt latch.
#[verifier::ext_equal]
pub ghost struct GbState {
    pub regs: GbRegisters,
    pub mem: Seq<u8>,
    pub ime: bool,
    pub halted: bool,
}

impl GbState {
    pub open spec fn wf(self) -> bool {
        self.mem.len() == MEMORY_SIZE
    }
}

/// The state after fetching one byte at the program counter: the byte read
/// and the counter advanced by one, wrapping.
pub open spec fn spec_fetch_byte(s: GbState) -> (u8, GbState) {
    (
        mem_read(s.mem, s.regs.program_counter),
        GbState {
            regs: GbRegisters {
                program_counter: wadd16(s.regs.program_counter, 1),
                ..s.regs
            },
            ..s
        },
    )
}

/// The state after fetching a 16-bit immediate: two bytes little-endian
/// (low byte first), the counter advanced by two.
pub open spec fn spec_fetch_word(s: GbState) -> (u16, GbState) {
    let (b1, s1) = spec_fetch_byte(s);
    let (b2, s2) = spec_fetch_byte(s1);
    (word_from_bytes(b2, b1), s2)
}

/// The state after pushing one byte: the stack pointer decrements before
/// the write, so the byte lands at the new stack pointer.
pub open spec fn spec_push_byte(s: GbState, val: u8) -> GbState {
    let new_sp = wsub16(s.regs.stack_pointer, 1);
    GbState {
        regs: GbRegisters { stack_pointer: new_sp, ..s.regs },
        mem: mem_write(s.mem, new_sp, val),
        ..s
    }
}

/// The state after pushing a 16-bit value: high byte first at the higher
/// address, then the low byte below it.
pub open spec fn spec_push_word(s: GbState, val: u16) -> GbState {
    spec_push_byte(spec_push_byte(s, word_high_byte(val)), word_low_byte(val))
}

/// The state after popping one byte: the byte is read at the stack pointer,
/// which increments after the read.
pub open spec fn spec_pop_byte(s: GbState) -> (u8, GbState) {
    (
        mem_read(s.mem, s.regs.stack_pointer),
        GbState {
            regs: GbRegisters {
                stack_pointer: wadd16(s.regs.stack_pointer, 1),
                ..s.regs
            },
            ..s
        },
    )
}

/// The state after popping a 16-bit value: low byte first, then the high
/// byte, composing big-endian — the mirror image of `spec_push_word`.
pub open spec fn spec_pop_word(s: GbState) -> (u16, GbState) {
    let (lo, s1) = spec_pop_byte(s);
    let (hi, s2) = spec_pop_byte(s1);
    (word_from_bytes(hi, lo), s2)
}

/// The 8-bit operand named by a 3-bit `r8` field: a register cell for the
/// seven register ids, the byte at address HL for id 6.
pub open spec fn spec_get_r8(s: GbState, register_id: u8) -> u8 {
    if register_id != 6 {
        s.regs.spec_r8(register_id)
    } else {
        mem_read(s.mem, s.regs.spec_hl())
    }
}

/// The state after writing the 8-bit operand named by a 3-bit `r8` field:
/// a register cell for the seven register ids, the byte at address HL for
/// id 6.
pub open spec fn spec_set_r8(s: GbState, register_id: u8, new_value: u8) -> GbState {
    if register_id != 6 {
        GbState { regs: s.regs.spec_set_r8(register_id, new_value), ..s }
    } else {
        GbState { mem: mem_write(s.mem, s.regs.spec_hl(), new_value), ..s }
    }
}

/// Round-trip stack law: pushing a 16-bit value and then popping yields the
/// value back and restores the stack pointer.  The two cells the push
/// touches must be plain storage: the divider cell discards writes and the
/// input-status cell reads as all-ones, so a stack living on top of either
/// cannot restore the value.
pub proof fn lemma_stack_push_pop_round_trip(s: GbState, v: u16)
    requires
        s.wf(),
        s.regs.stack_pointer >= 2,
        s.regs.stack_pointer - 1 != DIV_REGISTER_LOCATION,
        s.regs.stack_pointer - 1 != JOYP_LOCATION,
        s.regs.stack_pointer - 2 != DIV_REGISTER_LOCATION,
        s.regs.stack_pointer - 2 != JOYP_LOCATION,
    ensures
        spec_pop_word(spec_push_word(s, v)).0 == v,
        spec_pop_word(spec_push_word(s, v)).1.regs.stack_pointer == s.regs.stack_pointer,
{
    lemma_pair_join_of_split(v);
}

/// One whole machine: the register file, the addressable memory, the global
/// interrupt-enable latch, and the halt latch the HALT opcode sets.
pub struct Gb {
    pub registers: GbRegisters,
    pub gb_memory: GbMemory,
    pub interrupt_master_flag: bool,
    pub halted: bool,
}

impl View for Gb {
    type V = GbState;

    open spec fn view(&self) -> GbState {
        GbState {
            regs: self.registers,
            mem: self.gb_memory@,
            ime: self.interrupt_master_flag,
            halted: self.halted,
        }
    }
}

impl Gb {
    pub open spec fn wf(self) -> bool {
        self@.wf()
    }

    /// A machine loaded with a program image: the image is copied verbatim
    /// from address 0, zero-padded or truncated to the full 64KB; every
    /// register starts at zero, the stack pointer at 0xFFFE and the program
    /// counter at the conventional 0x0100 entry point; interrupts are
    /// globally disabled.
    pub fn new(rom: &[u8]) -> (r: Gb)
        ensures
            r.wf(),
            r@.regs == (GbRegisters {
                a: 0,
                b: 0,
                c: 0,
                d: 0,
                e: 0,
                h: 0,
                l: 0,
                f: GbFlagsRegister { z: false, n: false, h: false, c: false },
                stack_pointer: 0xFFFE,
                program_counter: 0x0100,
            }),
            !r@.ime,
            !r@.halted,
            forall|i: int|
                0 <= i < MEMORY_SIZE ==> #[trigger] r@.mem[i] == (if i < rom@.len() {
                    rom@[i]
                } else {
                    0u8
                }),
    {
        let mut memory_array: Vec<u8> = Vec::new();
        let mut i: usize = 0;
        while i < MEMORY_SIZE
            invariant
                i <= MEMORY_SIZE,
                memory_array@.len() == i,
                forall|j: int|
                    0 <= j < i ==> #[trigger] memory_array@[j] == (if j < rom@.len() {
                        rom@[j]
                    } else {
                        0u8
                    }),
            decreases MEMORY_SIZE - i,
        {
            if i < rom.len() {
                let byte: u8 = rom[i];
                memory_array.push(byte);
            } else {
                memory_array.push(0);
            }
            i = i + 1;
        }
        Gb {
            registers: GbRegisters {
                a: 0,
                b: 0,
                c: 0,
                d: 0,
                e: 0,
                h: 0,
                l: 0,
                f: GbFlagsRegister { z: false, n: false, h: false, c: false },
                stack_pointer: 0xFFFE,
                program_counter: 0x0100,
            },
            gb_memory: GbMemory { memory_array },
            interrupt_master_flag: false,
            halted: false,
        }
    }

    /// Reads the 8-bit operand named by a 3-bit `r8` field; id 6 reads the
    /// byte at address HL.
    pub fn get_r8(&self, register_id: u8) -> (r: u8)
        requires
            self.wf(),
            register_id < 8,
        ensures
            r == spec_get_r8(self@, register_id),
    {
        if register_id != 6 {
            self.registers.internal_get_r8(register_id)
        } else {
            let read_location: u16 = self.registers.get_hl();
            self.gb_memory.read_byte(read_location)
        }
    }

    /// Writes the 8-bit operand named by a 3-bit `r8` field; id 6 writes the
    /// byte at address HL.
    pub fn set_r8(&mut self, register_id: u8, new_value: u8)
        requires
            old(self).wf(),
            register_id < 8,
        ensures
            final(self).wf(),
            final(self)@ == spec_set_r8(old(self)@, register_id, new_value),
    {
        if register_id != 6 {
            self.registers.internal_set_r8(register_id, new_value);
        } else {
            let write_location: u16 = self.registers.get_hl();
            self.gb_memory.write_byte(write_location, new_value);
        }
    }

    /// Consumes the byte at the program counter, advancing it by one,
    /// wrapping modulo 65536.
    pub fn read_byte_and_advance_program_counter(&mut self) -> (r: u8)
        requires
            old(self).wf(),
        ensures
            final(self).wf(),
            r == spec_fetch_byte(old(self)@).0,
            final(self)@ == spec_fetch_byte(old(self)@).1,
    {
        let read_location: u16 = self.registers.program_counter;
        self.registers.program_counter = read_location.wrapping_add(1);
        self.gb_memory.read_byte(read_location)
    }

    /// Consumes a 16-bit immediate at the program counter, little-endian.
    pub fn read_word_and_advance_program_counter(&mut self) -> (r: u16)
        requires
            old(self).wf(),
        ensures
            final(self).wf(),
            r == spec_fetch_word(old(self)@).0,
            final(self)@ == spec_fetch_word(old(self)@).1,
    {
        let b1: u8 = self.read_byte_and_advance_program_counter();
        let b2: u8 = self.read_byte_and_advance_program_counter();
        ((b2 as u16) << 8) | (b1 as u16)
    }

    /// Reads the byte at HL plus an offset, wrapping.
    pub fn read_hl_indirection_offset(&self, offset: u16) -> (r: u8)
        requires
            self.wf(),
        ensures
            r == mem_read(self@.mem, wadd16(self@.regs.spec_hl(), offset)),
    {
        let hl_location: u16 = self.registers.get_hl();
        self.gb_memory.read_byte(hl_location.wrapping_add(offset))
    }

    /// Reads the byte at HL.
    pub fn read_hl_indirection(&self) -> (r: u8)
        requires
            self.wf(),
        ensures
            r == mem_read(self@.mem, self@.regs.spec_hl()),
    {
        let r: u8 = self.read_hl_indirection_offset(0);
        proof {
            assert(wadd16(self@.regs.spec_hl(), 0) == self@.regs.spec_hl());
        }
        r
    }

    /// Writes the byte at HL plus an offset, wrapping.
    pub fn set_hl_indirection_offset(&mut self, offset: u16, new_value: u8)
        requires
            old(self).wf(),
        ensures
            final(self).wf(),
            final(self)@ == (GbState {
                mem: mem_write(old(self)@.mem, wadd16(old(self)@.regs.spec_hl(), offset), new_value),
                ..old(self)@
            }),
    {
        let hl_location: u16 = self.registers.get_hl().wrapping_add(offset);
        self.gb_memory.write_byte(hl_location, new_value);
    }

    /// Writes the byte at HL.
    pub fn set_hl_indirection(&mut self, new_value: u8)
        requires
            old(self).wf(),
        ensures
            final(self).wf(),
            final(self)@ == (GbState {
                mem: mem_write(old(self)@.mem, old(self)@.regs.spec_hl(), new_value),
                ..old(self)@
            }),
    {
        self.set_hl_indirection_offset(0, new_value);
        proof {
            assert(wadd16(old(self)@.regs.spec_hl(), 0) == old(self)@.regs.spec_hl());
        }
    }

    /// Pops one byte: reads at the stack pointer, then increments it.
    pub fn pop_stack_byte(&mut self) -> (r: u8)
        requires
            old(self).wf(),
        ensures
            final(self).wf(),
            r == spec_pop_byte(old(self)@).0,
            final(self)@ == spec_pop_byte(old(self)@).1,
    {
        let read_byte_location: u16 = self.registers.stack_pointer;
        self.registers.stack_pointer = read_byte_location.wrapping_add(1);
        self.gb_memory.read_byte(read_byte_location)
    }

    /// Pops a 16-bit value: low byte first, then the high byte.
    pub fn pop_stack_word(&mut self) -> (r: u16)
        requires
            old(self).wf(),
        ensures
            final(self).wf(),
            r == spec_pop_word(old(self)@).0,
            final(self)@ == spec_pop_word(old(self)@).1,
    {
        let read_byte_low: u8 = self.pop_stack_byte();
        let read_byte_high: u8 = self.pop_stack_byte();
        ((read_byte_high as u16) << 8) | (read_byte_low as u16)
    }

    /// Pushes one byte: decrements the stack pointer, then writes at the new
    /// stack pointer (full-descending stack).
    pub fn push_stack_byte(&mut self, val: u8)
        requires
            old(self).wf(),
        ensures
            final(self).wf(),
            final(self)@ == spec_push_byte(old(self)@, val),
    {
        let write_byte_location: u16 = self.registers.stack_pointer.wrapping_sub(1);
        self.registers.stack_pointer = write_byte_location;
        self.gb_memory.write_byte(write_byte_location, val);
    }

    /// Pushes a 16-bit value: high byte first, then the low byte below it,
    /// so that a subsequent pop reconstructs the value.
    pub fn push_stack_word(&mut self, val: u16)
        requires
            old(self).wf(),
        ensures
            final(self).wf(),
            final(self)@ == spec_push_word(old(self)@, val),
    {
        let write_byte_high: u8 = ((val & 0xFF00) >> 8) as u8;
        let write_byte_low: u8 = (val & 0x00FF) as u8;
        self.push_stack_byte(write_byte_high);
        self.push_stack_byte(write_byte_low);
    }
}

} // verus!
