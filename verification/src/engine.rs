use vstd::prelude::*;

use crate::arith::{
    calculate_byte_half_carry_add, calculate_byte_half_carry_sub, calculate_word_half_carry_add,
    lemma_mask_bounds, sign_extend_16, spec_half_carry_adc, spec_half_carry_add,
    spec_half_carry_sbc, spec_half_carry_sub, spec_half_carry_word_add, wadd16, wadd8, wsub16,
    wsub8,
};
use crate::gameboy::{
    spec_fetch_byte, spec_fetch_word, spec_get_r8, spec_pop_word, spec_push_word, spec_set_r8, Gb,
    GbState,
};
use crate::gb_interrupts::{spec_acknowledge, spec_pending, InterruptKind};
use crate::gb_memory::{mem_read, mem_write};
use crate::gb_registers::{word_high_byte, word_low_byte, GbRegisters};
use crate::gb_registers_flags::GbFlagsRegister;

verus! {

/// The classification every executed opcode returns: either the byte named
/// an instruction that was carried out, or it matched none (reserved and
/// illegal encodings, and the decimal-adjust opcode, which has no defined
/// semantics in this engine).
#[derive(Clone, Copy, Debug, PartialEq, Eq, Structural)]
pub enum OpOutcome {
    Recognized,
    Unrecognized,
}

/// What one whole step of the machine did.
#[derive(Clone, Copy, Debug, PartialEq, Eq, Structural)]
pub enum StepOutcome {
    /// One instruction (or an interrupt dispatch followed by one
    /// instruction) was executed.
    Executed,
    /// The machine is halted and no interrupt is pending: no byte was
    /// fetched, nothing changed.
    Halted,
    /// The fetched byte matched no known instruction.  The run mode of the
    /// driver decides whether this is fatal or merely flagged.
    UndefinedOpcode(u8),
}

/// 8-bit addition with carry-in, wrapping modulo 256.
pub open spec fn spec_alu_add8(a: u8, b: u8, carry_in: u8) -> u8 {
    ((a + b + carry_in) % 0x100) as u8
}

/// 8-bit subtraction with borrow-in, wrapping modulo 256.
pub open spec fn spec_alu_sub8(a: u8, b: u8, carry_in: u8) -> u8 {
    if a - b - carry_in < 0 {
        (a - b - carry_in + 0x100) as u8
    } else {
        (a - b - carry_in) as u8
    }
}

/// The eight accumulator operations of the ALU group, selected by the 3-bit
/// field of the opcode: ADD, ADC, SUB, SBC, AND, XOR, OR, CP.  Yields the
/// new accumulator (unchanged for CP) and the four flags, each per its
/// fixed, operation-specific rule.
pub open spec fn spec_alu(a: u8, b: u8, f: GbFlagsRegister, alu_id: u8) -> (u8, GbFlagsRegister) {
    let carry_in = if f.c {
        1u8
    } else {
        0u8
    };
    if alu_id == 0 {
        let r = spec_alu_add8(a, b, 0);
        (
            r,
            GbFlagsRegister { z: r == 0, n: false, h: spec_half_carry_add(a, b), c: a + b > 0xFF },
        )
    } else if alu_id == 1 {
        let r = spec_alu_add8(a, b, carry_in);
        (
            r,
            GbFlagsRegister {
                z: r == 0,
                n: false,
                h: spec_half_carry_adc(a, b, carry_in),
                c: a + b + carry_in > 0xFF,
            },
        )
    } else if alu_id == 2 {
        let r = spec_alu_sub8(a, b, 0);
        (r, GbFlagsRegister { z: r == 0, n: true, h: spec_half_carry_sub(a, b), c: b > a })
    } else if alu_id == 3 {
        let r = spec_alu_sub8(a, b, carry_in);
        (
            r,
            GbFlagsRegister {
                z: r == 0,
                n: true,
                h: spec_half_carry_sbc(a, b, carry_in),
                c: b + carry_in > a,
            },
        )
    } else if alu_id == 4 {
        let r = a & b;
        (r, GbFlagsRegister { z: r == 0, n: false, h: true, c: false })
    } else if alu_id == 5 {
        let r = a ^ b;
        (r, GbFlagsRegister { z: r == 0, n: false, h: false, c: false })
    } else if alu_id == 6 {
        let r = a | b;
        (r, GbFlagsRegister { z: r == 0, n: false, h: false, c: false })
    } else {
        // compare: the flags of the subtraction, the accumulator kept
        (
            a,
            GbFlagsRegister {
                z: spec_alu_sub8(a, b, 0) == 0,
                n: true,
                h: spec_half_carry_sub(a, b),
                c: b > a,
            },
        )
    }
}

/// Group 0b00: loads, 16-bit arithmetic, 8-bit increment/decrement,
/// relative jumps, accumulator rotates and the carry/complement operations.
pub open spec fn spec_execute_group0(s: GbState, op: u8) -> (GbState, bool) {
    if op == 0x00 {
        // NOP
        (s, true)
    } else if op & 0x0F == 0x01 {
        // LD r16, imm16
        let fetched = spec_fetch_word(s);
        let s1 = fetched.1;
        ((GbState { regs: s1.regs.spec_set_r16((op & 0x30) >> 4, fetched.0), ..s1 }), true)
    } else if op & 0x0F == 0x02 {
        // LD [r16mem], A
        let register_id = (op & 0x30) >> 4;
        let addr = s.regs.spec_r16mem_value(register_id);
        (
            (GbState {
                regs: s.regs.spec_r16mem_regs(register_id),
                mem: mem_write(s.mem, addr, s.regs.a),
                ..s
            }),
            true,
        )
    } else if op & 0x0F == 0x0A {
        // LD A, [r16mem]
        let register_id = (op & 0x30) >> 4;
        let addr = s.regs.spec_r16mem_value(register_id);
        (
            (GbState {
                regs: GbRegisters {
                    a: mem_read(s.mem, addr),
                    ..s.regs.spec_r16mem_regs(register_id)
                },
                ..s
            }),
            true,
        )
    } else if op == 0x08 {
        // LD [imm16], SP: the low byte at the address, the high byte above it
        let fetched = spec_fetch_word(s);
        let addr = fetched.0;
        let s1 = fetched.1;
        let m1 = mem_write(s1.mem, addr, word_low_byte(s1.regs.stack_pointer));
        let m2 = mem_write(m1, wadd16(addr, 1), word_high_byte(s1.regs.stack_pointer));
        ((GbState { mem: m2, ..s1 }), true)
    } else if op & 0x0F == 0x03 {
        // INC r16, wrapping, no flags
        let register_id = (op & 0x30) >> 4;
        (
            (GbState {
                regs: s.regs.spec_set_r16(register_id, wadd16(s.regs.spec_r16(register_id), 1)),
                ..s
            }),
            true,
        )
    } else if op & 0x0F == 0x0B {
        // DEC r16, wrapping, no flags
        let register_id = (op & 0x30) >> 4;
        (
            (GbState {
                regs: s.regs.spec_set_r16(register_id, wsub16(s.regs.spec_r16(register_id), 1)),
                ..s
            }),
            true,
        )
    } else if op & 0x0F == 0x09 {
        // ADD HL, r16
        let old_hl = s.regs.spec_hl();
        let r16 = s.regs.spec_r16((op & 0x30) >> 4);
        let f1 = GbFlagsRegister {
            n: false,
            c: old_hl + r16 > 0xFFFF,
            h: spec_half_carry_word_add(old_hl, r16),
            ..s.regs.f
        };
        (
            (GbState {
                regs: GbRegisters { f: f1, ..s.regs }.spec_set_hl(wadd16(old_hl, r16)),
                ..s
            }),
            true,
        )
    } else if op & 0x07 == 0x04 {
        // INC r8 (id 6 goes through [HL]); carry is untouched
        let register_id = (op & 0x38) >> 3;
        let old_val = spec_get_r8(s, register_id);
        let new_val = wadd8(old_val, 1);
        let s1 = spec_set_r8(s, register_id, new_val);
        let f1 = GbFlagsRegister {
            z: new_val == 0,
            n: false,
            h: spec_half_carry_add(old_val, 1),
            ..s1.regs.f
        };
        ((GbState { regs: GbRegisters { f: f1, ..s1.regs }, ..s1 }), true)
    } else if op & 0x07 == 0x05 {
        // DEC r8 (id 6 goes through [HL]); carry is untouched
        let register_id = (op & 0x38) >> 3;
        let old_val = spec_get_r8(s, register_id);
        let new_val = wsub8(old_val, 1);
        let s1 = spec_set_r8(s, register_id, new_val);
        let f1 = GbFlagsRegister {
            z: new_val == 0,
            n: true,
            h: spec_half_carry_sub(old_val, 1),
            ..s1.regs.f
        };
        ((GbState { regs: GbRegisters { f: f1, ..s1.regs }, ..s1 }), true)
    } else if op & 0xC7 == 0x06 {
        // LD r8, imm8 (id 6 goes through [HL])
        let fetched = spec_fetch_byte(s);
        (spec_set_r8(fetched.1, (op & 0x38) >> 3, fetched.0), true)
    } else {
        spec_execute_group0_rest(s, op)
    }
}

/// Group 0b00, continued: the relative jumps and STOP.
pub open spec fn spec_execute_group0_rest(s: GbState, op: u8) -> (GbState, bool) {
    if op == 0x18 {
        // JR imm8: the signed displacement is added after it was consumed
        let fetched = spec_fetch_byte(s);
        let s1 = fetched.1;
        (
            (GbState {
                regs: GbRegisters {
                    program_counter: wadd16(s1.regs.program_counter, sign_extend_16(fetched.0)),
                    ..s1.regs
                },
                ..s1
            }),
            true,
        )
    } else if op & 0xE7 == 0x20 {
        // JR cond, imm8: the displacement is consumed whether or not taken
        let fetched = spec_fetch_byte(s);
        let s1 = fetched.1;
        if s.regs.f.spec_condition((op & 0x18) >> 3) {
            (
                (GbState {
                    regs: GbRegisters {
                        program_counter: wadd16(s1.regs.program_counter, sign_extend_16(fetched.0)),
                        ..s1.regs
                    },
                    ..s1
                }),
                true,
            )
        } else {
            (s1, true)
        }
    } else if op == 0x10 {
        // STOP consumes its padding byte and does nothing else
        (spec_fetch_byte(s).1, true)
    } else {
        spec_execute_group0_acc(s, op)
    }
}

/// Group 0b00, continued: the accumulator rotates and the carry and
/// complement operations.
pub open spec fn spec_execute_group0_acc(s: GbState, op: u8) -> (GbState, bool) {
    if op == 0x07 {
        // RLCA: circular left rotate of A, Carry takes the bit rotated out
        let a = s.regs.a;
        let f1 = GbFlagsRegister { z: false, n: false, h: false, c: a & 0x80 != 0 };
        ((GbState { regs: GbRegisters { a: (a << 1) | (a >> 7), f: f1, ..s.regs }, ..s }), true)
    } else if op == 0x0F {
        // RRCA
        let a = s.regs.a;
        let f1 = GbFlagsRegister { z: false, n: false, h: false, c: a & 0x01 != 0 };
        (
            (GbState { regs: GbRegisters { a: (a >> 1) | ((a & 0x01) << 7), f: f1, ..s.regs }, ..s }),
            true,
        )
    } else if op == 0x17 {
        // RLA: rotate left through the Carry flag
        let a = s.regs.a;
        let carry_in = if s.regs.f.c {
            1u8
        } else {
            0u8
        };
        let f1 = GbFlagsRegister { z: false, n: false, h: false, c: a & 0x80 != 0 };
        ((GbState { regs: GbRegisters { a: (a << 1) | carry_in, f: f1, ..s.regs }, ..s }), true)
    } else if op == 0x1F {
        // RRA: rotate right through the Carry flag
        let a = s.regs.a;
        let carry_in = if s.regs.f.c {
            0x80u8
        } else {
            0u8
        };
        let f1 = GbFlagsRegister { z: false, n: false, h: false, c: a & 0x01 != 0 };
        ((GbState { regs: GbRegisters { a: (a >> 1) | carry_in, f: f1, ..s.regs }, ..s }), true)
    } else if op == 0x2F {
        // CPL: complement the accumulator
        (
            (GbState {
                regs: GbRegisters {
                    a: !s.regs.a,
                    f: GbFlagsRegister { n: true, h: true, ..s.regs.f },
                    ..s.regs
                },
                ..s
            }),
            true,
        )
    } else if op == 0x37 {
        // SCF: set the Carry flag
        (
            (GbState {
                regs: GbRegisters {
                    f: GbFlagsRegister { n: false, h: false, c: true, ..s.regs.f },
                    ..s.regs
                },
                ..s
            }),
            true,
        )
    } else if op == 0x3F {
        // CCF: complement the Carry flag
        (
            (GbState {
                regs: GbRegisters {
                    f: GbFlagsRegister { c: !s.regs.f.c, ..s.regs.f },
                    ..s.regs
                },
                ..s
            }),
            true,
        )
    } else {
        // the remaining encodings, among them the decimal-adjust opcode,
        // have no semantics in this engine
        (s, false)
    }
}

/// Group 0b01: HALT, and the register-to-register (or [HL]) loads.
pub open spec fn spec_execute_group1(s: GbState, op: u8) -> (GbState, bool) {
    if op == 0x76 {
        // HALT: instruction issue stops until an interrupt is pending
        ((GbState { halted: true, ..s }), true)
    } else {
        // LD r8, r8 (either side may be the [HL] operand)
        (spec_set_r8(s, (op & 0x38) >> 3, spec_get_r8(s, op & 0x07)), true)
    }
}

/// Group 0b10: the eight accumulator ALU operations against a register or
/// the [HL] operand.
pub open spec fn spec_execute_group2(s: GbState, op: u8) -> (GbState, bool) {
    let operand = spec_get_r8(s, op & 0x07);
    let applied = spec_alu(s.regs.a, operand, s.regs.f, (op & 0x38) >> 3);
    ((GbState { regs: GbRegisters { a: applied.0, f: applied.1, ..s.regs }, ..s }), true)
}

/// Group 0b11: control flow, the stack, the immediate ALU forms, the
/// high-page loads and the interrupt latch.
pub open spec fn spec_execute_group3(s: GbState, op: u8) -> (GbState, bool) {
    if op & 0xE7 == 0xC0 {
        // RET cond
        if s.regs.f.spec_condition((op & 0x18) >> 3) {
            let popped = spec_pop_word(s);
            (
                (GbState {
                    regs: GbRegisters { program_counter: popped.0, ..popped.1.regs },
                    ..popped.1
                }),
                true,
            )
        } else {
            (s, true)
        }
    } else if op & 0xE7 == 0xC2 {
        // JP cond, imm16
        let fetched = spec_fetch_word(s);
        let s1 = fetched.1;
        if s.regs.f.spec_condition((op & 0x18) >> 3) {
            ((GbState { regs: GbRegisters { program_counter: fetched.0, ..s1.regs }, ..s1 }), true)
        } else {
            (s1, true)
        }
    } else if op & 0xE7 == 0xC4 {
        // CALL cond, imm16: pushes the post-instruction return address
        let fetched = spec_fetch_word(s);
        let s1 = fetched.1;
        if s.regs.f.spec_condition((op & 0x18) >> 3) {
            let s2 = spec_push_word(s1, s1.regs.program_counter);
            ((GbState { regs: GbRegisters { program_counter: fetched.0, ..s2.regs }, ..s2 }), true)
        } else {
            (s1, true)
        }
    } else if op & 0xC7 == 0xC7 {
        // RST vec: call one of the eight fixed low-memory vectors
        let s1 = spec_push_word(s, s.regs.program_counter);
        let vec_addr = ((((op & 0x38) >> 3) as u16) * 8) as u16;
        ((GbState { regs: GbRegisters { program_counter: vec_addr, ..s1.regs }, ..s1 }), true)
    } else if op & 0xCF == 0xC1 {
        // POP r16stk (POP AF restores the flags from the popped low byte)
        let popped = spec_pop_word(s);
        (
            (GbState { regs: popped.1.regs.spec_set_r16stk((op & 0x30) >> 4, popped.0), ..popped.1 }),
            true,
        )
    } else if op & 0xCF == 0xC5 {
        // PUSH r16stk
        (spec_push_word(s, s.regs.spec_r16stk((op & 0x30) >> 4)), true)
    } else if op & 0xC7 == 0xC6 {
        // the eight ALU operations against an immediate byte
        let fetched = spec_fetch_byte(s);
        let s1 = fetched.1;
        let applied = spec_alu(s.regs.a, fetched.0, s.regs.f, (op & 0x38) >> 3);
        ((GbState { regs: GbRegisters { a: applied.0, f: applied.1, ..s1.regs }, ..s1 }), true)
    } else if op == 0xC9 {
        // RET
        let popped = spec_pop_word(s);
        (
            (GbState {
                regs: GbRegisters { program_counter: popped.0, ..popped.1.regs },
                ..popped.1
            }),
            true,
        )
    } else if op == 0xD9 {
        // RETI: return and re-arm the global interrupt latch
        let popped = spec_pop_word(s);
        (
            (GbState {
                regs: GbRegisters { program_counter: popped.0, ..popped.1.regs },
                ime: true,
                ..popped.1
            }),
            true,
        )
    } else if op == 0xC3 {
        // JP imm16
        let fetched = spec_fetch_word(s);
        (
            (GbState {
                regs: GbRegisters { program_counter: fetched.0, ..fetched.1.regs },
                ..fetched.1
            }),
            true,
        )
    } else if op == 0xE9 {
        // JP HL
        ((GbState { regs: GbRegisters { program_counter: s.regs.spec_hl(), ..s.regs }, ..s }), true)
    } else if op == 0xCD {
        // CALL imm16: pushes the post-instruction return address
        let fetched = spec_fetch_word(s);
        let s1 = fetched.1;
        let s2 = spec_push_word(s1, s1.regs.program_counter);
        ((GbState { regs: GbRegisters { program_counter: fetched.0, ..s2.regs }, ..s2 }), true)
    } else if op == 0xE2 {
        // LDH [0xFF00+C], A
        ((GbState { mem: mem_write(s.mem, 0xFF00u16 | (s.regs.c as u16), s.regs.a), ..s }), true)
    } else if op == 0xE0 {
        // LDH [0xFF00+imm8], A
        let fetched = spec_fetch_byte(s);
        let s1 = fetched.1;
        ((GbState { mem: mem_write(s1.mem, 0xFF00u16 | (fetched.0 as u16), s.regs.a), ..s1 }), true)
    } else if op == 0xEA {
        // LD [imm16], A
        let fetched = spec_fetch_word(s);
        let s1 = fetched.1;
        ((GbState { mem: mem_write(s1.mem, fetched.0, s.regs.a), ..s1 }), true)
    } else if op == 0xF2 {
        // LDH A, [0xFF00+C]
        (
            (GbState {
                regs: GbRegisters {
                    a: mem_read(s.mem, 0xFF00u16 | (s.regs.c as u16)),
                    ..s.regs
                },
                ..s
            }),
            true,
        )
    } else if op == 0xF0 {
        // LDH A, [0xFF00+imm8]
        let fetched = spec_fetch_byte(s);
        let s1 = fetched.1;
        (
            (GbState {
                regs: GbRegisters {
                    a: mem_read(s1.mem, 0xFF00u16 | (fetched.0 as u16)),
                    ..s1.regs
                },
                ..s1
            }),
            true,
        )
    } else if op == 0xFA {
        // LD A, [imm16]
        let fetched = spec_fetch_word(s);
        let s1 = fetched.1;
        ((GbState { regs: GbRegisters { a: mem_read(s1.mem, fetched.0), ..s1.regs }, ..s1 }), true)
    } else if op == 0xE8 {
        // ADD SP, imm8: signed displacement, flags computed on the low byte
        let fetched = spec_fetch_byte(s);
        let s1 = fetched.1;
        let sp = s1.regs.stack_pointer;
        let f1 = GbFlagsRegister {
            z: false,
            n: false,
            h: spec_half_carry_add(word_low_byte(sp), fetched.0),
            c: (sp & 0xFF) + fetched.0 > 0xFF,
        };
        (
            (GbState {
                regs: GbRegisters {
                    stack_pointer: wadd16(sp, sign_extend_16(fetched.0)),
                    f: f1,
                    ..s1.regs
                },
                ..s1
            }),
            true,
        )
    } else if op == 0xF8 {
        // LD HL, SP+imm8: same computation and flags, the sum lands in HL
        let fetched = spec_fetch_byte(s);
        let s1 = fetched.1;
        let sp = s1.regs.stack_pointer;
        let f1 = GbFlagsRegister {
            z: false,
            n: false,
            h: spec_half_carry_add(word_low_byte(sp), fetched.0),
            c: (sp & 0xFF) + fetched.0 > 0xFF,
        };
        (
            (GbState {
                regs: GbRegisters { f: f1, ..s1.regs }.spec_set_hl(
                    wadd16(sp, sign_extend_16(fetched.0)),
                ),
                ..s1
            }),
            true,
        )
    } else if op == 0xF9 {
        // LD SP, HL
        (
            (GbState { regs: GbRegisters { stack_pointer: s.regs.spec_hl(), ..s.regs }, ..s }),
            true,
        )
    } else if op == 0xF3 {
        // DI: clear the global interrupt latch
        ((GbState { ime: false, ..s }), true)
    } else if op == 0xFB {
        // EI: set the global interrupt latch
        ((GbState { ime: true, ..s }), true)
    } else {
        // reserved and illegal encodings
        (s, false)
    }
}

/// The machine after executing one already-fetched opcode byte (the program
/// counter stands past that byte), and whether the byte named a known
/// instruction.  The top two bits of the byte select the group, the
/// remaining six the operation.
pub open spec fn spec_execute_op(s: GbState, op: u8) -> (GbState, bool) {
    if op >> 6 == 0 {
        spec_execute_group0(s, op)
    } else if op >> 6 == 1 {
        spec_execute_group1(s, op)
    } else if op >> 6 == 2 {
        spec_execute_group2(s, op)
    } else {
        spec_execute_group3(s, op)
    }
}

/// The boundary dispatch protocol: while the global latch is set and an
/// interrupt is pending, the latch is cleared, the program counter is pushed
/// (leaving any halt state), the selected request bit is acknowledged and
/// execution is redirected to the fixed vector.  At most one interrupt
/// dispatches per check.
pub open spec fn spec_dispatch(s: GbState) -> (GbState, Option<InterruptKind>) {
    if !s.ime {
        (s, None)
    } else {
        match spec_pending(s.mem) {
            Option::None => (s, None),
            Option::Some(kind) => {
                let s1 = GbState { ime: false, halted: false, ..s };
                let s2 = spec_push_word(s1, s1.regs.program_counter);
                let s3 = GbState { mem: spec_acknowledge(s2.mem, kind), ..s2 };
                (
                    (GbState {
                        regs: GbRegisters { program_counter: kind.spec_vector(), ..s3.regs },
                        ..s3
                    }),
                    Some(kind),
                )
            },
        }
    }
}

/// One whole step at an instruction boundary: the interrupt check and
/// possible dispatch first, then — unless the machine stays halted — the
/// fetch and execution of one opcode.  A halted machine wakes when an
/// interrupt is pending even while the global latch is clear, but consumes
/// no program bytes before that.
pub open spec fn spec_step(s: GbState) -> (GbState, StepOutcome) {
    let s1 = spec_dispatch(s).0;
    let s2 = if s1.halted && spec_pending(s1.mem) is Some {
        GbState { halted: false, ..s1 }
    } else {
        s1
    };
    if s2.halted {
        (s2, StepOutcome::Halted)
    } else {
        let fetched = spec_fetch_byte(s2);
        let executed = spec_execute_op(fetched.1, fetched.0);
        (
            executed.0,
            if executed.1 {
                StepOutcome::Executed
            } else {
                StepOutcome::UndefinedOpcode(fetched.0)
            },
        )
    }
}

/// The eight accumulator ALU operations; yields the new accumulator and
/// flags.
fn alu_apply(a: u8, b: u8, f: GbFlagsRegister, alu_id: u8) -> (r: (u8, GbFlagsRegister))
    requires
        alu_id < 8,
    ensures
        r == spec_alu(a, b, f, alu_id),
{
    let carry_in: u8 = if f.c {
        1
    } else {
        0
    };
    if alu_id == 0 {
        let total: u16 = (a as u16) + (b as u16);
        let result: u8 = (total % 0x100) as u8;
        (
            result,
            GbFlagsRegister {
                z: result == 0,
                n: false,
                h: calculate_byte_half_carry_add(a, b),
                c: total > 0xFF,
            },
        )
    } else if alu_id == 1 {
        let total: u16 = (a as u16) + (b as u16) + (carry_in as u16);
        let result: u8 = (total % 0x100) as u8;
        let half: bool = ((a & 0x0F) as u16) + ((b & 0x0F) as u16) + (carry_in as u16) > 0x0F;
        (result, GbFlagsRegister { z: result == 0, n: false, h: half, c: total > 0xFF })
    } else if alu_id == 2 {
        let result: u8 = a.wrapping_sub(b);
        (
            result,
            GbFlagsRegister {
                z: result == 0,
                n: true,
                h: calculate_byte_half_carry_sub(a, b),
                c: b > a,
            },
        )
    } else if alu_id == 3 {
        let total: i32 = (a as i32) - (b as i32) - (carry_in as i32);
        let result: u8 = if total < 0 {
            (total + 0x100) as u8
        } else {
            total as u8
        };
        let half: bool = ((a & 0x0F) as u16) < ((b & 0x0F) as u16) + (carry_in as u16);
        let borrow: bool = (b as u16) + (carry_in as u16) > (a as u16);
        (result, GbFlagsRegister { z: result == 0, n: true, h: half, c: borrow })
    } else if alu_id == 4 {
        let result: u8 = a & b;
        (result, GbFlagsRegister { z: result == 0, n: false, h: true, c: false })
    } else if alu_id == 5 {
        let result: u8 = a ^ b;
        (result, GbFlagsRegister { z: result == 0, n: false, h: false, c: false })
    } else if alu_id == 6 {
        let result: u8 = a | b;
        (result, GbFlagsRegister { z: result == 0, n: false, h: false, c: false })
    } else {
        let result: u8 = a.wrapping_sub(b);
        (
            a,
            GbFlagsRegister {
                z: result == 0,
                n: true,
                h: calculate_byte_half_carry_sub(a, b),
                c: b > a,
            },
        )
    }
}

/// Executes one group-0b00 opcode.
#[verifier::rlimit(100)]
fn execute_group0(gb: &mut Gb, query_byte: u8) -> (r: OpOutcome)
    requires
        old(gb).wf(),
    ensures
        final(gb).wf(),
        final(gb)@ == spec_execute_group0(old(gb)@, query_byte).0,
        (r == OpOutcome::Recognized) == spec_execute_group0(old(gb)@, query_byte).1,
{
    proof {
        lemma_mask_bounds(query_byte);
    }
    if query_byte == 0x00 {
        // NOP
        OpOutcome::Recognized
    } else if query_byte & 0x0F == 0x01 {
        // LD r16, imm16
        let write_word: u16 = gb.read_word_and_advance_program_counter();
        let register_id: u8 = (query_byte & 0x30) >> 4;
        gb.registers.set_r16(register_id, write_word);
        OpOutcome::Recognized
    } else if query_byte & 0x0F == 0x02 {
        // LD [r16mem], A
        let register_id: u8 = (query_byte & 0x30) >> 4;
        let write_byte: u8 = gb.registers.a;
        let write_location: u16 = gb.registers.get_r16mem(register_id);
        gb.gb_memory.write_byte(write_location, write_byte);
        OpOutcome::Recognized
    } else if query_byte & 0x0F == 0x0A {
        // LD A, [r16mem]
        let register_id: u8 = (query_byte & 0x30) >> 4;
        let read_location: u16 = gb.registers.get_r16mem(register_id);
        let read_byte: u8 = gb.gb_memory.read_byte(read_location);
        gb.registers.a = read_byte;
        OpOutcome::Recognized
    } else if query_byte == 0x08 {
        // LD [imm16], SP
        let write_location: u16 = gb.read_word_and_advance_program_counter();
        let sp: u16 = gb.registers.stack_pointer;
        gb.gb_memory.write_byte(write_location, (sp & 0x00FF) as u8);
        gb.gb_memory.write_byte(write_location.wrapping_add(1), ((sp & 0xFF00) >> 8) as u8);
        OpOutcome::Recognized
    } else if query_byte & 0x0F == 0x03 {
        // INC r16
        let register_id: u8 = (query_byte & 0x30) >> 4;
        let new_val: u16 = gb.registers.get_r16(register_id).wrapping_add(1);
        gb.registers.set_r16(register_id, new_val);
        OpOutcome::Recognized
    } else if query_byte & 0x0F == 0x0B {
        // DEC r16
        let register_id: u8 = (query_byte & 0x30) >> 4;
        let new_val: u16 = gb.registers.get_r16(register_id).wrapping_sub(1);
        gb.registers.set_r16(register_id, new_val);
        OpOutcome::Recognized
    } else if query_byte & 0x0F == 0x09 {
        // ADD HL, r16
        let old_hl: u16 = gb.registers.get_hl();
        let register_id: u8 = (query_byte & 0x30) >> 4;
        let r16: u16 = gb.registers.get_r16(register_id);
        gb.registers.f.n = false;
        gb.registers.f.c = (old_hl as u32) + (r16 as u32) > 0xFFFF;
        gb.registers.f.h = calculate_word_half_carry_add(old_hl, r16);
        gb.registers.set_hl(old_hl.wrapping_add(r16));
        OpOutcome::Recognized
    } else if query_byte & 0x07 == 0x04 {
        // INC r8
        let register_id: u8 = (query_byte & 0x38) >> 3;
        let old_val: u8 = gb.get_r8(register_id);
        let new_val: u8 = old_val.wrapping_add(1);
        gb.set_r8(register_id, new_val);
        gb.registers.f.z = new_val == 0;
        gb.registers.f.n = false;
        gb.registers.f.h = calculate_byte_half_carry_add(old_val, 1);
        OpOutcome::Recognized
    } else if query_byte & 0x07 == 0x05 {
        // DEC r8
        let register_id: u8 = (query_byte & 0x38) >> 3;
        let old_val: u8 = gb.get_r8(register_id);
        let new_val: u8 = old_val.wrapping_sub(1);
        gb.set_r8(register_id, new_val);
        gb.registers.f.z = new_val == 0;
        gb.registers.f.n = true;
        gb.registers.f.h = calculate_byte_half_carry_sub(old_val, 1);
        OpOutcome::Recognized
    } else if query_byte & 0xC7 == 0x06 {
        // LD r8, imm8
        let write_byte: u8 = gb.read_byte_and_advance_program_counter();
        let register_id: u8 = (query_byte & 0x38) >> 3;
        gb.set_r8(register_id, write_byte);
        OpOutcome::Recognized
    } else {
        execute_group0_rest(gb, query_byte)
    }
}

/// Executes the relative jumps and STOP of group 0b00.
fn execute_group0_rest(gb: &mut Gb, query_byte: u8) -> (r: OpOutcome)
    requires
        old(gb).wf(),
    ensures
        final(gb).wf(),
        final(gb)@ == spec_execute_group0_rest(old(gb)@, query_byte).0,
        (r == OpOutcome::Recognized) == spec_execute_group0_rest(old(gb)@, query_byte).1,
{
    proof {
        lemma_mask_bounds(query_byte);
    }
    if query_byte == 0x18 {
        // JR imm8
        let offset: u8 = gb.read_byte_and_advance_program_counter();
        let displacement: u16 = if offset < 0x80 {
            offset as u16
        } else {
            (offset as u16) + 0xFF00
        };
        gb.registers.program_counter = gb.registers.program_counter.wrapping_add(displacement);
        OpOutcome::Recognized
    } else if query_byte & 0xE7 == 0x20 {
        // JR cond, imm8
        let offset: u8 = gb.read_byte_and_advance_program_counter();
        let condition_id: u8 = (query_byte & 0x18) >> 3;
        if gb.registers.f.check_condition(condition_id) {
            let displacement: u16 = if offset < 0x80 {
                offset as u16
            } else {
                (offset as u16) + 0xFF00
            };
            gb.registers.program_counter = gb.registers.program_counter.wrapping_add(displacement);
        }
        OpOutcome::Recognized
    } else if query_byte == 0x10 {
        // STOP
        let _padding: u8 = gb.read_byte_and_advance_program_counter();
        OpOutcome::Recognized
    } else {
        execute_group0_acc(gb, query_byte)
    }
}

/// Executes the accumulator rotates and the carry and complement
/// operations of group 0b00.
fn execute_group0_acc(gb: &mut Gb, query_byte: u8) -> (r: OpOutcome)
    requires
        old(gb).wf(),
    ensures
        final(gb).wf(),
        final(gb)@ == spec_execute_group0_acc(old(gb)@, query_byte).0,
        (r == OpOutcome::Recognized) == spec_execute_group0_acc(old(gb)@, query_byte).1,
{
    if query_byte == 0x07 {
        // RLCA
        let reg_a: u8 = gb.registers.a;
        gb.registers.f = GbFlagsRegister { z: false, n: false, h: false, c: reg_a & 0x80 != 0 };
        gb.registers.a = (reg_a << 1) | (reg_a >> 7);
        OpOutcome::Recognized
    } else if query_byte == 0x0F {
        // RRCA
        let reg_a: u8 = gb.registers.a;
        gb.registers.f = GbFlagsRegister { z: false, n: false, h: false, c: reg_a & 0x01 != 0 };
        gb.registers.a = (reg_a >> 1) | ((reg_a & 0x01) << 7);
        OpOutcome::Recognized
    } else if query_byte == 0x17 {
        // RLA
        let reg_a: u8 = gb.registers.a;
        let carry_in: u8 = if gb.registers.f.c {
            1
        } else {
            0
        };
        gb.registers.f = GbFlagsRegister { z: false, n: false, h: false, c: reg_a & 0x80 != 0 };
        gb.registers.a = (reg_a << 1) | carry_in;
        OpOutcome::Recognized
    } else if query_byte == 0x1F {
        // RRA
        let reg_a: u8 = gb.registers.a;
        let carry_in: u8 = if gb.registers.f.c {
            0x80
        } else {
            0
        };
        gb.registers.f = GbFlagsRegister { z: false, n: false, h: false, c: reg_a & 0x01 != 0 };
        gb.registers.a = (reg_a >> 1) | carry_in;
        OpOutcome::Recognized
    } else if query_byte == 0x2F {
        // CPL
        gb.registers.a = !gb.registers.a;
        gb.registers.f.n = true;
        gb.registers.f.h = true;
        OpOutcome::Recognized
    } else if query_byte == 0x37 {
        // SCF
        gb.registers.f.n = false;
        gb.registers.f.h = false;
        gb.registers.f.c = true;
        OpOutcome::Recognized
    } else if query_byte == 0x3F {
        // CCF
        gb.registers.f.c = !gb.registers.f.c;
        OpOutcome::Recognized
    } else {
        OpOutcome::Unrecognized
    }
}

/// Executes one group-0b01 opcode.
fn execute_group1(gb: &mut Gb, query_byte: u8) -> (r: OpOutcome)
    requires
        old(gb).wf(),
    ensures
        final(gb).wf(),
        final(gb)@ == spec_execute_group1(old(gb)@, query_byte).0,
        (r == OpOutcome::Recognized) == spec_execute_group1(old(gb)@, query_byte).1,
{
    proof {
        lemma_mask_bounds(query_byte);
    }
    if query_byte == 0x76 {
        // HALT
        gb.halted = true;
        OpOutcome::Recognized
    } else {
        // LD r8, r8
        let dest_r8_id: u8 = (query_byte & 0x38) >> 3;
        let src_r8_id: u8 = query_byte & 0x07;
        let write_byte: u8 = gb.get_r8(src_r8_id);
        gb.set_r8(dest_r8_id, write_byte);
        OpOutcome::Recognized
    }
}

/// Executes one group-0b10 opcode.
fn execute_group2(gb: &mut Gb, query_byte: u8) -> (r: OpOutcome)
    requires
        old(gb).wf(),
    ensures
        final(gb).wf(),
        final(gb)@ == spec_execute_group2(old(gb)@, query_byte).0,
        (r == OpOutcome::Recognized) == spec_execute_group2(old(gb)@, query_byte).1,
{
    proof {
        lemma_mask_bounds(query_byte);
    }
    let operand_id: u8 = query_byte & 0x07;
    let operand: u8 = gb.get_r8(operand_id);
    let alu_id: u8 = (query_byte & 0x38) >> 3;
    let applied: (u8, GbFlagsRegister) = alu_apply(gb.registers.a, operand, gb.registers.f, alu_id);
    gb.registers.a = applied.0;
    gb.registers.f = applied.1;
    OpOutcome::Recognized
}

/// Executes one group-0b11 opcode.
#[verifier::rlimit(60)]
fn execute_group3(gb: &mut Gb, query_byte: u8) -> (r: OpOutcome)
    requires
        old(gb).wf(),
    ensures
        final(gb).wf(),
        final(gb)@ == spec_execute_group3(old(gb)@, query_byte).0,
        (r == OpOutcome::Recognized) == spec_execute_group3(old(gb)@, query_byte).1,
{
    proof {
        lemma_mask_bounds(query_byte);
    }
    if query_byte & 0xE7 == 0xC0 {
        // RET cond
        let cond_id: u8 = (query_byte & 0x18) >> 3;
        if gb.registers.f.check_condition(cond_id) {
            let new_pc: u16 = gb.pop_stack_word();
            gb.registers.program_counter = new_pc;
        }
        OpOutcome::Recognized
    } else if query_byte & 0xE7 == 0xC2 {
        // JP cond, imm16
        let jp_location: u16 = gb.read_word_and_advance_program_counter();
        let cond_id: u8 = (query_byte & 0x18) >> 3;
        if gb.registers.f.check_condition(cond_id) {
            gb.registers.program_counter = jp_location;
        }
        OpOutcome::Recognized
    } else if query_byte & 0xE7 == 0xC4 {
        // CALL cond, imm16
        let call_location: u16 = gb.read_word_and_advance_program_counter();
        let cond_id: u8 = (query_byte & 0x18) >> 3;
        if gb.registers.f.check_condition(cond_id) {
            let return_pc: u16 = gb.registers.program_counter;
            gb.push_stack_word(return_pc);
            gb.registers.program_counter = call_location;
        }
        OpOutcome::Recognized
    } else if query_byte & 0xC7 == 0xC7 {
        // RST vec
        let tgt3: u8 = (query_byte & 0x38) >> 3;
        let vec_addr: u16 = (tgt3 as u16) * 8;
        let return_pc: u16 = gb.registers.program_counter;
        gb.push_stack_word(return_pc);
        gb.registers.program_counter = vec_addr;
        OpOutcome::Recognized
    } else if query_byte & 0xCF == 0xC1 {
        // POP r16stk
        let r16stk_id: u8 = (query_byte & 0x30) >> 4;
        let read_word: u16 = gb.pop_stack_word();
        gb.registers.set_r16stk(r16stk_id, read_word);
        OpOutcome::Recognized
    } else if query_byte & 0xCF == 0xC5 {
        // PUSH r16stk
        let r16stk_id: u8 = (query_byte & 0x30) >> 4;
        let r16: u16 = gb.registers.get_r16stk(r16stk_id);
        gb.push_stack_word(r16);
        OpOutcome::Recognized
    } else if query_byte & 0xC7 == 0xC6 {
        // ALU op against an immediate byte
        let next_byte: u8 = gb.read_byte_and_advance_program_counter();
        let alu_id: u8 = (query_byte & 0x38) >> 3;
        let applied: (u8, GbFlagsRegister) = alu_apply(
            gb.registers.a,
            next_byte,
            gb.registers.f,
            alu_id,
        );
        gb.registers.a = applied.0;
        gb.registers.f = applied.1;
        OpOutcome::Recognized
    } else if query_byte == 0xC9 {
        // RET
        let new_pc: u16 = gb.pop_stack_word();
        gb.registers.program_counter = new_pc;
        OpOutcome::Recognized
    } else if query_byte == 0xD9 {
        // RETI
        gb.interrupt_master_flag = true;
        let new_pc: u16 = gb.pop_stack_word();
        gb.registers.program_counter = new_pc;
        OpOutcome::Recognized
    } else if query_byte == 0xC3 {
        // JP imm16
        let new_pc: u16 = gb.read_word_and_advance_program_counter();
        gb.registers.program_counter = new_pc;
        OpOutcome::Recognized
    } else if query_byte == 0xE9 {
        // JP HL
        let new_pc: u16 = gb.registers.get_hl();
        gb.registers.program_counter = new_pc;
        OpOutcome::Recognized
    } else if query_byte == 0xCD {
        // CALL imm16
        let call_location: u16 = gb.read_word_and_advance_program_counter();
        let return_pc: u16 = gb.registers.program_counter;
        gb.push_stack_word(return_pc);
        gb.registers.program_counter = call_location;
        OpOutcome::Recognized
    } else if query_byte == 0xE2 {
        // LDH [0xFF00+C], A
        let write_byte: u8 = gb.registers.a;
        let write_byte_location: u16 = 0xFF00u16 | (gb.registers.c as u16);
        gb.gb_memory.write_byte(write_byte_location, write_byte);
        OpOutcome::Recognized
    } else if query_byte == 0xE0 {
        // LDH [0xFF00+imm8], A
        let offset: u8 = gb.read_byte_and_advance_program_counter();
        let write_byte: u8 = gb.registers.a;
        let write_byte_location: u16 = 0xFF00u16 | (offset as u16);
        gb.gb_memory.write_byte(write_byte_location, write_byte);
        OpOutcome::Recognized
    } else if query_byte == 0xEA {
        // LD [imm16], A
        let write_location: u16 = gb.read_word_and_advance_program_counter();
        let write_byte: u8 = gb.registers.a;
        gb.gb_memory.write_byte(write_location, write_byte);
        OpOutcome::Recognized
    } else if query_byte == 0xF2 {
        // LDH A, [0xFF00+C]
        let read_location: u16 = 0xFF00u16 | (gb.registers.c as u16);
        let read_byte: u8 = gb.gb_memory.read_byte(read_location);
        gb.registers.a = read_byte;
        OpOutcome::Recognized
    } else if query_byte == 0xF0 {
        // LDH A, [0xFF00+imm8]
        let offset: u8 = gb.read_byte_and_advance_program_counter();
        let read_location: u16 = 0xFF00u16 | (offset as u16);
        let read_byte: u8 = gb.gb_memory.read_byte(read_location);
        gb.registers.a = read_byte;
        OpOutcome::Recognized
    } else if query_byte == 0xFA {
        // LD A, [imm16]
        let read_location: u16 = gb.read_word_and_advance_program_counter();
        let read_byte: u8 = gb.gb_memory.read_byte(read_location);
        gb.registers.a = read_byte;
        OpOutcome::Recognized
    } else if query_byte == 0xE8 {
        // ADD SP, imm8
        let imm8: u8 = gb.read_byte_and_advance_program_counter();
        let sp: u16 = gb.registers.stack_pointer;
        let displacement: u16 = if imm8 < 0x80 {
            imm8 as u16
        } else {
            (imm8 as u16) + 0xFF00
        };
        gb.registers.f = GbFlagsRegister {
            z: false,
            n: false,
            h: calculate_byte_half_carry_add((sp & 0x00FF) as u8, imm8),
            c: ((sp & 0x00FF) as u32) + (imm8 as u32) > 0xFF,
        };
        gb.registers.stack_pointer = sp.wrapping_add(displacement);
        OpOutcome::Recognized
    } else if query_byte == 0xF8 {
        // LD HL, SP+imm8
        let imm8: u8 = gb.read_byte_and_advance_program_counter();
        let sp: u16 = gb.registers.stack_pointer;
        let displacement: u16 = if imm8 < 0x80 {
            imm8 as u16
        } else {
            (imm8 as u16) + 0xFF00
        };
        gb.registers.f = GbFlagsRegister {
            z: false,
            n: false,
            h: calculate_byte_half_carry_add((sp & 0x00FF) as u8, imm8),
            c: ((sp & 0x00FF) as u32) + (imm8 as u32) > 0xFF,
        };
        gb.registers.set_hl(sp.wrapping_add(displacement));
        OpOutcome::Recognized
    } else if query_byte == 0xF9 {
        // LD SP, HL
        let new_sp: u16 = gb.registers.get_hl();
        gb.registers.stack_pointer = new_sp;
        OpOutcome::Recognized
    } else if query_byte == 0xF3 {
        // DI
        gb.interrupt_master_flag = false;
        OpOutcome::Recognized
    } else if query_byte == 0xFB {
        // EI
        gb.interrupt_master_flag = true;
        OpOutcome::Recognized
    } else {
        OpOutcome::Unrecognized
    }
}

/// Executes one already-fetched opcode byte against the machine.  The
/// program counter must already stand past the byte; immediate operands are
/// consumed from there.  Total over all 256 byte values: an encoding without
/// semantics changes nothing and yields the unrecognized classification.
pub fn execute_op(gb: &mut Gb, query_byte: u8) -> (r: OpOutcome)
    requires
        old(gb).wf(),
    ensures
        final(gb).wf(),
        final(gb)@ == spec_execute_op(old(gb)@, query_byte).0,
        (r == OpOutcome::Recognized) == spec_execute_op(old(gb)@, query_byte).1,
{
    let group: u8 = query_byte >> 6;
    if group == 0 {
        execute_group0(gb, query_byte)
    } else if group == 1 {
        execute_group1(gb, query_byte)
    } else if group == 2 {
        execute_group2(gb, query_byte)
    } else {
        execute_group3(gb, query_byte)
    }
}

impl Gb {
    /// The once-per-boundary interrupt check of the dispatch protocol: while
    /// the global latch is set and a source is both enabled and requested,
    /// clears the latch, pushes the program counter, acknowledges exactly
    /// that source and redirects execution to its vector.  Yields the
    /// dispatched source, if any.
    pub fn dispatch_interrupts(&mut self) -> (r: Option<InterruptKind>)
        requires
            old(self).wf(),
        ensures
            final(self).wf(),
            final(self)@ == spec_dispatch(old(self)@).0,
            r == spec_dispatch(old(self)@).1,
    {
        if !self.interrupt_master_flag {
            return None;
        }
        let pending: Option<InterruptKind> = self.gb_memory.pending_interrupt();
        match pending {
            Option::None => None,
            Option::Some(kind) => {
                self.interrupt_master_flag = false;
                self.halted = false;
                let return_pc: u16 = self.registers.program_counter;
                self.push_stack_word(return_pc);
                self.gb_memory.acknowledge_interrupt(kind);
                self.registers.program_counter = kind.vector();
                Some(kind)
            },
        }
    }

    /// One step of the machine at an instruction boundary: the interrupt
    /// check (and possible dispatch) first, then — unless the machine stays
    /// halted — one fetch-decode-execute round.  Every opcode is atomic with
    /// respect to this granularity.
    pub fn step(&mut self) -> (r: StepOutcome)
        requires
            old(self).wf(),
        ensures
            final(self).wf(),
            final(self)@ == spec_step(old(self)@).0,
            r == spec_step(old(self)@).1,
    {
        self.dispatch_interrupts();
        if self.halted {
            let pending: Option<InterruptKind> = self.gb_memory.pending_interrupt();
            if pending.is_some() {
                self.halted = false;
            } else {
                return StepOutcome::Halted;
            }
        }
        let query_byte: u8 = self.read_byte_and_advance_program_counter();
        let outcome: OpOutcome = execute_op(self, query_byte);
        match outcome {
            OpOutcome::Recognized => StepOutcome::Executed,
            OpOutcome::Unrecognized => StepOutcome::UndefinedOpcode(query_byte),
        }
    }
}

} // verus!
