use vstd::prelude::*;

use crate::gb_memory::{
    mem_read, mem_write, GbMemory, InterruptFlags, INTERRUPT_ENABLE_LOCATION,
    INTERRUPT_FLAGS_LOCATION,
};

verus! {

/// The five interrupt sources, in dispatch priority order: v-blank first,
/// joypad last.
#[derive(Clone, Copy, Debug, PartialEq, Eq, Structural)]
pub enum InterruptKind {
    VBlank,
    Lcd,
    Timer,
    Serial,
    Joypad,
}

impl InterruptKind {
    /// The fixed vector address execution jumps to when this interrupt is
    /// dispatched.
    pub open spec fn spec_vector(self) -> u16 {
        match self {
            InterruptKind::VBlank => 0x40,
            InterruptKind::Lcd => 0x48,
            InterruptKind::Timer => 0x50,
            InterruptKind::Serial => 0x58,
            InterruptKind::Joypad => 0x60,
        }
    }

    pub fn vector(&self) -> (r: u16)
        ensures
            r == self.spec_vector(),
    {
        match self {
            InterruptKind::VBlank => 0x40,
            InterruptKind::Lcd => 0x48,
            InterruptKind::Timer => 0x50,
            InterruptKind::Serial => 0x58,
            InterruptKind::Joypad => 0x60,
        }
    }
}

/// The interrupt-request flags with one source's pending bit cleared.
pub open spec fn spec_clear_request(fl: InterruptFlags, kind: InterruptKind) -> InterruptFlags {
    match kind {
        InterruptKind::VBlank => InterruptFlags { v_blank: false, ..fl },
        InterruptKind::Lcd => InterruptFlags { lcd: false, ..fl },
        InterruptKind::Timer => InterruptFlags { timer: false, ..fl },
        InterruptKind::Serial => InterruptFlags { serial: false, ..fl },
        InterruptKind::Joypad => InterruptFlags { joypad: false, ..fl },
    }
}

/// The highest-priority interrupt that is both enabled and requested, from
/// the bitwise AND of the enable byte and the request byte; none when no
/// source is both.  Priority is the fixed order v-blank, lcd, timer,
/// serial, joypad.
pub open spec fn spec_pending(m: Seq<u8>) -> Option<InterruptKind> {
    let enabled = InterruptFlags::spec_from_byte(mem_read(m, INTERRUPT_ENABLE_LOCATION));
    let requested = InterruptFlags::spec_from_byte(mem_read(m, INTERRUPT_FLAGS_LOCATION));
    if enabled.v_blank && requested.v_blank {
        Some(InterruptKind::VBlank)
    } else if enabled.lcd && requested.lcd {
        Some(InterruptKind::Lcd)
    } else if enabled.timer && requested.timer {
        Some(InterruptKind::Timer)
    } else if enabled.serial && requested.serial {
        Some(InterruptKind::Serial)
    } else if enabled.joypad && requested.joypad {
        Some(InterruptKind::Joypad)
    } else {
        None
    }
}

/// The memory after acknowledging `kind`: exactly that one request bit is
/// cleared (and the unused top bits of the request byte are zeroed by the
/// bit-field accessor).
pub open spec fn spec_acknowledge(m: Seq<u8>, kind: InterruptKind) -> Seq<u8> {
    let requested = InterruptFlags::spec_from_byte(mem_read(m, INTERRUPT_FLAGS_LOCATION));
    mem_write(m, INTERRUPT_FLAGS_LOCATION, spec_clear_request(requested, kind).spec_as_byte())
}

impl GbMemory {
    /// Selects the pending interrupt, if any: the highest-priority source
    /// whose bit is set in both the enable byte and the request byte.
    pub fn pending_interrupt(&self) -> (r: Option<InterruptKind>)
        requires
            self.wf(),
        ensures
            r == spec_pending(self@),
    {
        let enabled: InterruptFlags = self.read_interrupt_enable();
        let requested: InterruptFlags = self.read_interrupt_flags();
        if enabled.v_blank && requested.v_blank {
            Some(InterruptKind::VBlank)
        } else if enabled.lcd && requested.lcd {
            Some(InterruptKind::Lcd)
        } else if enabled.timer && requested.timer {
            Some(InterruptKind::Timer)
        } else if enabled.serial && requested.serial {
            Some(InterruptKind::Serial)
        } else if enabled.joypad && requested.joypad {
            Some(InterruptKind::Joypad)
        } else {
            None
        }
    }

    /// Clears the one request bit of `kind`, leaving every other source's
    /// request untouched.
    pub fn acknowledge_interrupt(&mut self, kind: InterruptKind)
        requires
            old(self).wf(),
        ensures
            final(self).wf(),
            final(self)@ == spec_acknowledge(old(self)@, kind),
    {
        let mut requested: InterruptFlags = self.read_interrupt_flags();
        match kind {
            InterruptKind::VBlank => requested.v_blank = false,
            InterruptKind::Lcd => requested.lcd = false,
            InterruptKind::Timer => requested.timer = false,
            InterruptKind::Serial => requested.serial = false,
            InterruptKind::Joypad => requested.joypad = false,
        }
        self.set_interrupt_flags(requested);
    }
}

} // verus!
