use vstd::prelude::*;

use crate::arith::wadd8;

verus! {

/// Number of bytes in the flat address space: every 16-bit address is valid.
pub const MEMORY_SIZE: usize = 0x10000;

/// Interrupt-request ("pending") bit-field byte.
pub const INTERRUPT_FLAGS_LOCATION: u16 = 0xFF0F;

/// Interrupt-enable bit-field byte.
pub const INTERRUPT_ENABLE_LOCATION: u16 = 0xFFFF;

/// Free-running divider counter; any write resets it to zero.
pub const DIV_REGISTER_LOCATION: u16 = 0xFF04;

/// Programmable timer counter.
pub const TIMA_LOCATION: u16 = 0xFF05;

/// Reload ("modulo") value of the programmable timer.
pub const TMA_LOCATION: u16 = 0xFF06;

/// Timer control: bit 2 enables the programmable timer, bits 0-1 select its
/// rate.
pub const TAC_LOCATION: u16 = 0xFF07;

/// Input status; the joypad matrix is unimplemented, reads yield all-ones
/// ("no buttons pressed").
pub const JOYP_LOCATION: u16 = 0xFF00;

/// The byte read at `address`: plain storage everywhere except the input
/// status cell, which always reads as all-ones.
pub open spec fn mem_read(m: Seq<u8>, address: u16) -> u8 {
    if address == JOYP_LOCATION {
        0xFF
    } else {
        m[address as int]
    }
}

/// The memory after writing `value` at `address`: plain storage everywhere
/// except the divider cell, which any write resets to zero.
pub open spec fn mem_write(m: Seq<u8>, address: u16, value: u8) -> Seq<u8> {
    if address == DIV_REGISTER_LOCATION {
        m.update(address as int, 0)
    } else {
        m.update(address as int, value)
    }
}

/// Divider write law: writing any value to the divider address leaves the
/// divider cell reading back zero, never the value written.
pub proof fn lemma_divider_write_reads_zero(m: Seq<u8>, n: u8)
    requires
        m.len() == MEMORY_SIZE,
    ensures
        mem_read(mem_write(m, DIV_REGISTER_LOCATION, n), DIV_REGISTER_LOCATION) == 0,
{
}

/// The five interrupt sources, one bit each in both the interrupt-enable
/// byte and the interrupt-request byte: bit 0 = v-blank, bit 1 = lcd,
/// bit 2 = timer, bit 3 = serial, bit 4 = joypad.
#[derive(Clone, Copy, Debug)]
pub struct InterruptFlags {
    pub v_blank: bool,
    pub lcd: bool,
    pub timer: bool,
    pub serial: bool,
    pub joypad: bool,
}

impl InterruptFlags {
    /// The flags encoded in the low five bits of `byte`.
    pub open spec fn spec_from_byte(byte: u8) -> InterruptFlags {
        InterruptFlags {
            v_blank: byte & 0x01 != 0,
            lcd: byte & 0x02 != 0,
            timer: byte & 0x04 != 0,
            serial: byte & 0x08 != 0,
            joypad: byte & 0x10 != 0,
        }
    }

    /// The byte form of the flags: one bit per source, the top three bits
    /// zero.
    pub open spec fn spec_as_byte(self) -> u8 {
        (if self.v_blank { 0x01u8 } else { 0u8 }) | (if self.lcd { 0x02u8 } else { 0u8 })
            | (if self.timer { 0x04u8 } else { 0u8 }) | (if self.serial { 0x08u8 } else { 0u8 })
            | (if self.joypad { 0x10u8 } else { 0u8 })
    }

    /// Decodes an interrupt bit-field byte into its five named flags.
    pub fn get_flags_from_byte(byte: u8) -> (r: InterruptFlags)
        ensures
            r == InterruptFlags::spec_from_byte(byte),
    {
        InterruptFlags {
            v_blank: byte & 0x01 != 0,
            lcd: byte & 0x02 != 0,
            timer: byte & 0x04 != 0,
            serial: byte & 0x08 != 0,
            joypad: byte & 0x10 != 0,
        }
    }

    /// Packs the five named flags back into a bit-field byte.
    pub fn get_byte_from_flag(&self) -> (r: u8)
        ensures
            r == self.spec_as_byte(),
    {
        (if self.v_blank { 0x01u8 } else { 0u8 }) | (if self.lcd { 0x02u8 } else { 0u8 })
            | (if self.timer { 0x04u8 } else { 0u8 }) | (if self.serial { 0x08u8 } else { 0u8 })
            | (if self.joypad { 0x10u8 } else { 0u8 })
    }
}

/// The memory after one divider tick: the divider cell advances by one,
/// wrapping modulo 256, regardless of everything else.
pub open spec fn spec_tick_div(m: Seq<u8>) -> Seq<u8> {
    m.update(DIV_REGISTER_LOCATION as int, wadd8(m[DIV_REGISTER_LOCATION as int], 1))
}

/// The programmable timer's rate in ticks per second, derived from the
/// control byte: zero while the enable bit (bit 2) is clear, else one of
/// four fixed frequencies selected by bits 0-1.  Every 2-bit pattern selects
/// a frequency, so no impossible control state exists.
pub open spec fn spec_tima_rate(m: Seq<u8>) -> u64 {
    let tac = m[TAC_LOCATION as int];
    if tac & 0x04 == 0 {
        0
    } else if tac & 0x03 == 0 {
        4096
    } else if tac & 0x03 == 1 {
        262144
    } else if tac & 0x03 == 2 {
        65536
    } else {
        16384
    }
}

/// The memory after one programmable-timer tick: the counter advances by
/// one; on overflow it reloads from the modulo cell and the timer bit of the
/// interrupt-request byte is raised (the other request bits are kept, the
/// top three bits of that byte are cleared by the bit-field accessor).
pub open spec fn spec_tick_tima(m: Seq<u8>) -> Seq<u8> {
    let t = m[TIMA_LOCATION as int];
    if t < 0xFF {
        m.update(TIMA_LOCATION as int, (t + 1) as u8)
    } else {
        let m1 = m.update(TIMA_LOCATION as int, m[TMA_LOCATION as int]);
        let fl = InterruptFlags::spec_from_byte(m1[INTERRUPT_FLAGS_LOCATION as int]);
        mem_write(
            m1,
            INTERRUPT_FLAGS_LOCATION,
            (InterruptFlags { timer: true, ..fl }).spec_as_byte(),
        )
    }
}

/// The flat 64KB byte space, with the read/write barrier that intercepts the
/// special-cased addresses (input status on read, divider on write).
pub struct GbMemory {
    pub memory_array: Vec<u8>,
}

impl View for GbMemory {
    type V = Seq<u8>;

    open spec fn view(&self) -> Seq<u8> {
        self.memory_array@
    }
}

impl GbMemory {
    /// The one structural invariant: the byte array covers the whole 16-bit
    /// address space.
    pub open spec fn wf(self) -> bool {
        self@.len() == MEMORY_SIZE
    }

    /// Reads one byte; total over the full address space.  The input-status
    /// address always yields all-ones.
    pub fn read_byte(&self, address: u16) -> (r: u8)
        requires
            self.wf(),
        ensures
            r == mem_read(self@, address),
    {
        if address == JOYP_LOCATION {
            return 0xFF;
        }
        self.memory_array[address as usize]
    }

    /// Writes one byte; total over the full address space.  A write to the
    /// divider address resets that cell to zero regardless of the value.
    pub fn write_byte(&mut self, address: u16, value: u8)
        requires
            old(self).wf(),
        ensures
            final(self).wf(),
            final(self)@ == mem_write(old(self)@, address, value),
    {
        if address == DIV_REGISTER_LOCATION {
            self.memory_array.set(DIV_REGISTER_LOCATION as usize, 0);
        } else {
            self.memory_array.set(address as usize, value);
        }
    }

    /// Advances the free-running divider counter by one, wrapping modulo
    /// 256.  This bypasses the write barrier: only an external write resets
    /// the divider.
    pub fn tick_div(&mut self)
        requires
            old(self).wf(),
        ensures
            final(self).wf(),
            final(self)@ == spec_tick_div(old(self)@),
    {
        let current_val: u8 = self.memory_array[DIV_REGISTER_LOCATION as usize];
        self.memory_array.set(DIV_REGISTER_LOCATION as usize, current_val.wrapping_add(1));
    }

    /// The programmable timer's tick frequency per the control byte; zero
    /// means disabled.  Every control value resolves to a rate, so the
    /// caller never faces an impossible timer state.
    pub fn get_tima_ticks_per_second(&mut self) -> (r: u64)
        requires
            old(self).wf(),
        ensures
            *final(self) == *old(self),
            r == spec_tima_rate(old(self)@),
    {
        let tac: u8 = self.memory_array[TAC_LOCATION as usize];
        if tac & 0x04 == 0 {
            0
        } else if tac & 0x03 == 0 {
            4096
        } else if tac & 0x03 == 1 {
            262144
        } else if tac & 0x03 == 2 {
            65536
        } else {
            16384
        }
    }

    /// Advances the programmable counter by one; on overflow reloads it from
    /// the modulo cell and raises the timer interrupt request.
    pub fn tick_tima(&mut self)
        requires
            old(self).wf(),
        ensures
            final(self).wf(),
            final(self)@ == spec_tick_tima(old(self)@),
    {
        let current_val: u8 = self.memory_array[TIMA_LOCATION as usize];
        if current_val < 0xFF {
            self.memory_array.set(TIMA_LOCATION as usize, current_val + 1);
        } else {
            let reload: u8 = self.memory_array[TMA_LOCATION as usize];
            self.memory_array.set(TIMA_LOCATION as usize, reload);
            let mut i_f: InterruptFlags = self.read_interrupt_flags();
            i_f.timer = true;
            self.set_interrupt_flags(i_f);
        }
    }

    /// The interrupt-enable byte decoded into its five named flags.
    pub fn read_interrupt_enable(&self) -> (r: InterruptFlags)
        requires
            self.wf(),
        ensures
            r == InterruptFlags::spec_from_byte(mem_read(self@, INTERRUPT_ENABLE_LOCATION)),
    {
        let byte: u8 = self.read_byte(INTERRUPT_ENABLE_LOCATION);
        InterruptFlags::get_flags_from_byte(byte)
    }

    /// The interrupt-request byte decoded into its five named flags.
    pub fn read_interrupt_flags(&self) -> (r: InterruptFlags)
        requires
            self.wf(),
        ensures
            r == InterruptFlags::spec_from_byte(mem_read(self@, INTERRUPT_FLAGS_LOCATION)),
    {
        let byte: u8 = self.read_byte(INTERRUPT_FLAGS_LOCATION);
        InterruptFlags::get_flags_from_byte(byte)
    }

    /// Replaces the interrupt-request byte with the packed form of `i_f`.
    pub fn set_interrupt_flags(&mut self, i_f: InterruptFlags)
        requires
            old(self).wf(),
        ensures
            final(self).wf(),
            final(self)@ == mem_write(old(self)@, INTERRUPT_FLAGS_LOCATION, i_f.spec_as_byte()),
    {
        let byte: u8 = i_f.get_byte_from_flag();
        self.write_byte(INTERRUPT_FLAGS_LOCATION, byte);
    }
}

} // verus!
