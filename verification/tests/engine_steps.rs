use gameboy_core::engine::{execute_op, OpOutcome, StepOutcome};
use gameboy_core::gameboy::Gb;

/// A machine whose program image holds the given bytes at the given
/// addresses and zero everywhere else.
fn machine(cells: &[(usize, u8)]) -> Gb {
    let mut rom = vec![0u8; 0x10000];
    for &(addr, byte) in cells {
        rom[addr] = byte;
    }
    Gb::new(&rom)
}

/// A machine with the given bytes laid out from the 0x0100 entry point.
fn program(bytes: &[u8]) -> Gb {
    let mut rom = vec![0u8; 0x100];
    rom.extend_from_slice(bytes);
    Gb::new(&rom)
}

#[test]
fn nop_advances_and_touches_nothing() {
    // byte 0x00 at 0x0100: one step moves the counter to 0x0101 and
    // mutates no register or flag
    let mut gb = program(&[0x00]);
    assert_eq!(gb.step(), StepOutcome::Executed);
    assert_eq!(gb.registers.program_counter, 0x0101);
    assert_eq!(
        (gb.registers.a, gb.registers.b, gb.registers.c, gb.registers.d),
        (0, 0, 0, 0)
    );
    assert_eq!((gb.registers.e, gb.registers.h, gb.registers.l), (0, 0, 0));
    assert_eq!(gb.registers.stack_pointer, 0xFFFE);
    let f = gb.registers.f;
    assert!(!f.z && !f.n && !f.h && !f.c);
}

#[test]
fn ld_bc_imm16() {
    // program bytes 01 34 12 at 0x0100: BC reads 0x1234, PC is 0x0103
    let mut gb = program(&[0x01, 0x34, 0x12]);
    assert_eq!(gb.step(), StepOutcome::Executed);
    assert_eq!(gb.registers.get_bc(), 0x1234);
    assert_eq!(gb.registers.program_counter, 0x0103);
}

#[test]
fn call_then_ret_restores_counter_and_stack() {
    // CALL 0x0200 at 0x0100, RET at 0x0200: two steps return to 0x0103
    // with the stack pointer back at its pre-call value
    let mut gb = machine(&[(0x100, 0xCD), (0x101, 0x00), (0x102, 0x02), (0x200, 0xC9)]);
    assert_eq!(gb.step(), StepOutcome::Executed);
    assert_eq!(gb.registers.program_counter, 0x0200);
    assert_eq!(gb.registers.stack_pointer, 0xFFFC);
    assert_eq!(gb.step(), StepOutcome::Executed);
    assert_eq!(gb.registers.program_counter, 0x0103);
    assert_eq!(gb.registers.stack_pointer, 0xFFFE);
}

#[test]
fn push_then_pop_round_trips() {
    let mut gb = machine(&[]);
    gb.push_stack_word(0xBEEF);
    assert_eq!(gb.registers.stack_pointer, 0xFFFC);
    assert_eq!(gb.gb_memory.read_byte(0xFFFD), 0xBE, "high byte pushed first, above");
    assert_eq!(gb.gb_memory.read_byte(0xFFFC), 0xEF, "low byte below it");
    assert_eq!(gb.pop_stack_word(), 0xBEEF);
    assert_eq!(gb.registers.stack_pointer, 0xFFFE);
}

#[test]
fn undefined_opcode_is_flagged() {
    // 0xD3 is a reserved encoding
    let mut gb = program(&[0xD3]);
    assert_eq!(gb.step(), StepOutcome::UndefinedOpcode(0xD3));
    assert_eq!(gb.registers.program_counter, 0x0101);
}

#[test]
fn decimal_adjust_has_no_semantics() {
    let mut gb = program(&[0x27]);
    assert_eq!(gb.step(), StepOutcome::UndefinedOpcode(0x27));
}

#[test]
fn halt_stops_instruction_issue() {
    let mut gb = program(&[0x76, 0x00]);
    assert_eq!(gb.step(), StepOutcome::Executed);
    assert!(gb.halted);
    assert_eq!(gb.registers.program_counter, 0x0101);
    // no further bytes are consumed while nothing is pending
    assert_eq!(gb.step(), StepOutcome::Halted);
    assert_eq!(gb.step(), StepOutcome::Halted);
    assert_eq!(gb.registers.program_counter, 0x0101);
}

#[test]
fn halt_wakes_on_pending_interrupt_without_latch() {
    let mut gb = program(&[0x76, 0x00]);
    gb.step();
    assert_eq!(gb.step(), StepOutcome::Halted);
    gb.gb_memory.write_byte(0xFFFF, 0x04);
    gb.gb_memory.write_byte(0xFF0F, 0x04);
    // the latch is clear: no dispatch, but instruction issue resumes
    assert_eq!(gb.step(), StepOutcome::Executed);
    assert!(!gb.halted);
    assert_eq!(gb.registers.program_counter, 0x0102);
    assert_eq!(gb.gb_memory.read_byte(0xFF0F), 0x04, "request left pending");
}

#[test]
fn halt_wakes_and_dispatches_with_latch() {
    let mut gb = machine(&[(0x100, 0x76)]);
    gb.step();
    assert_eq!(gb.step(), StepOutcome::Halted);
    gb.interrupt_master_flag = true;
    gb.gb_memory.write_byte(0xFFFF, 0x01);
    gb.gb_memory.write_byte(0xFF0F, 0x01);
    // dispatch to 0x0040, then the NOP there executes in the same step
    assert_eq!(gb.step(), StepOutcome::Executed);
    assert!(!gb.halted);
    assert_eq!(gb.registers.program_counter, 0x0041);
    assert_eq!(gb.gb_memory.read_byte(0xFF0F), 0x00);
}

#[test]
fn inc_r8_half_carry_and_zero() {
    let mut gb = program(&[0x3C, 0x3C]); // INC A twice
    gb.registers.a = 0x0F;
    gb.step();
    assert_eq!(gb.registers.a, 0x10);
    assert!(gb.registers.f.h && !gb.registers.f.z && !gb.registers.f.n);
    gb.registers.a = 0xFF;
    gb.step();
    assert_eq!(gb.registers.a, 0x00);
    assert!(gb.registers.f.z && gb.registers.f.h);
}

#[test]
fn inc_r8_keeps_carry_flag() {
    let mut gb = program(&[0x04]); // INC B
    gb.registers.f.c = true;
    gb.step();
    assert_eq!(gb.registers.b, 1);
    assert!(gb.registers.f.c, "INC r8 does not touch Carry");
}

#[test]
fn dec_r8_half_borrow() {
    let mut gb = program(&[0x3D]); // DEC A
    gb.registers.a = 0x10;
    gb.step();
    assert_eq!(gb.registers.a, 0x0F);
    assert!(gb.registers.f.h && gb.registers.f.n && !gb.registers.f.z);
}

#[test]
fn dec_r8_wraps_to_ff() {
    let mut gb = program(&[0x05]); // DEC B
    gb.step();
    assert_eq!(gb.registers.b, 0xFF);
    assert!(!gb.registers.f.z && gb.registers.f.n && gb.registers.f.h);
}

#[test]
fn inc_dec_r16_wrap_and_set_no_flags() {
    let mut gb = program(&[0x03, 0x0B, 0x0B]); // INC BC, DEC BC, DEC BC
    gb.registers.set_bc(0xFFFF);
    gb.step();
    assert_eq!(gb.registers.get_bc(), 0x0000);
    gb.step();
    assert_eq!(gb.registers.get_bc(), 0xFFFF);
    gb.step();
    assert_eq!(gb.registers.get_bc(), 0xFFFE);
    let f = gb.registers.f;
    assert!(!f.z && !f.n && !f.h && !f.c);
}

#[test]
fn add_hl_r16_carries() {
    let mut gb = program(&[0x19]); // ADD HL, DE
    gb.registers.set_hl(0xFFFF);
    gb.registers.set_de(0x0001);
    gb.step();
    assert_eq!(gb.registers.get_hl(), 0x0000);
    assert!(gb.registers.f.c && !gb.registers.f.n);
    assert!(gb.registers.f.h, "low bytes 0xFF + 0x01 carry out of bit 7");
}

#[test]
fn add_hl_r16_half_carry_on_low_bytes() {
    let mut gb = program(&[0x09]); // ADD HL, BC
    gb.registers.set_hl(0x00FF);
    gb.registers.set_bc(0x0001);
    gb.step();
    assert_eq!(gb.registers.get_hl(), 0x0100);
    assert!(gb.registers.f.h && !gb.registers.f.c);
}

#[test]
fn ld_r16mem_indirection_with_post_increment() {
    let mut gb = program(&[0x22, 0x3A]); // LD [HL+], A ; LD A, [HL-]
    gb.registers.a = 0x99;
    gb.registers.set_hl(0xC000);
    gb.step();
    assert_eq!(gb.gb_memory.read_byte(0xC000), 0x99);
    assert_eq!(gb.registers.get_hl(), 0xC001);
    gb.registers.a = 0;
    gb.gb_memory.write_byte(0xC001, 0x42);
    gb.step();
    assert_eq!(gb.registers.a, 0x42);
    assert_eq!(gb.registers.get_hl(), 0xC000);
}

#[test]
fn ld_imm16_sp_stores_both_bytes() {
    let mut gb = program(&[0x08, 0x00, 0xC0]); // LD [0xC000], SP
    gb.registers.stack_pointer = 0xABCD;
    gb.step();
    assert_eq!(gb.gb_memory.read_byte(0xC000), 0xCD);
    assert_eq!(gb.gb_memory.read_byte(0xC001), 0xAB);
    assert_eq!(gb.registers.program_counter, 0x0103);
}

#[test]
fn ld_r8_imm8_uses_full_register_field() {
    // 0x3E targets A (id 7): a narrowed field mask would alias it with E
    let mut gb = program(&[0x3E, 0x55, 0x1E, 0x66]); // LD A, 0x55 ; LD E, 0x66
    gb.step();
    assert_eq!(gb.registers.a, 0x55);
    gb.step();
    assert_eq!(gb.registers.e, 0x66);
    assert_eq!(gb.registers.a, 0x55);
}

#[test]
fn ld_hl_imm8_writes_memory() {
    let mut gb = program(&[0x36, 0x7F]); // LD [HL], 0x7F
    gb.registers.set_hl(0xC123);
    gb.step();
    assert_eq!(gb.gb_memory.read_byte(0xC123), 0x7F);
}

#[test]
fn jr_takes_signed_displacement() {
    let mut gb = program(&[0x18, 0xFE]); // JR -2
    gb.step();
    assert_eq!(gb.registers.program_counter, 0x0100);
    let mut fwd = program(&[0x18, 0x05]);
    fwd.step();
    assert_eq!(fwd.registers.program_counter, 0x0107);
}

#[test]
fn jr_cond_consumes_displacement_when_not_taken() {
    let mut gb = program(&[0x20, 0x10]); // JR NZ, +0x10
    gb.registers.f.z = true;
    gb.step();
    assert_eq!(gb.registers.program_counter, 0x0102);
    let mut taken = program(&[0x28, 0x10]); // JR Z, +0x10
    taken.registers.f.z = true;
    taken.step();
    assert_eq!(taken.registers.program_counter, 0x0112);
}

#[test]
fn stop_consumes_padding_byte() {
    let mut gb = program(&[0x10, 0x00]);
    assert_eq!(gb.step(), StepOutcome::Executed);
    assert_eq!(gb.registers.program_counter, 0x0102);
}

#[test]
fn rotates_of_the_accumulator() {
    let mut gb = program(&[0x07]); // RLCA
    gb.registers.a = 0x85;
    gb.step();
    assert_eq!(gb.registers.a, 0x0B);
    assert!(gb.registers.f.c && !gb.registers.f.z && !gb.registers.f.n && !gb.registers.f.h);

    let mut gb2 = program(&[0x0F]); // RRCA
    gb2.registers.a = 0x01;
    gb2.step();
    assert_eq!(gb2.registers.a, 0x80);
    assert!(gb2.registers.f.c);

    let mut gb3 = program(&[0x17]); // RLA
    gb3.registers.a = 0x80;
    gb3.registers.f.c = true;
    gb3.step();
    assert_eq!(gb3.registers.a, 0x01);
    assert!(gb3.registers.f.c);

    let mut gb4 = program(&[0x1F]); // RRA
    gb4.registers.a = 0x01;
    gb4.registers.f.c = true;
    gb4.step();
    assert_eq!(gb4.registers.a, 0x80);
    assert!(gb4.registers.f.c);
}

#[test]
fn cpl_scf_ccf() {
    let mut gb = program(&[0x2F, 0x37, 0x3F, 0x3F]);
    gb.registers.a = 0x35;
    gb.step();
    assert_eq!(gb.registers.a, 0xCA);
    assert!(gb.registers.f.n && gb.registers.f.h);
    gb.step(); // SCF
    assert!(gb.registers.f.c && !gb.registers.f.n && !gb.registers.f.h);
    gb.step(); // CCF
    assert!(!gb.registers.f.c);
    gb.step(); // CCF
    assert!(gb.registers.f.c);
}

#[test]
fn ld_r8_r8_moves_registers_and_hl() {
    let mut gb = program(&[0x78, 0x70]); // LD A, B ; LD [HL], B
    gb.registers.b = 0x99;
    gb.registers.set_hl(0xC050);
    gb.step();
    assert_eq!(gb.registers.a, 0x99);
    gb.step();
    assert_eq!(gb.gb_memory.read_byte(0xC050), 0x99);
}

#[test]
fn ld_r8_r8_reads_through_hl() {
    let mut gb = program(&[0x7E]); // LD A, [HL]
    gb.registers.set_hl(0xC060);
    gb.gb_memory.write_byte(0xC060, 0x5A);
    gb.step();
    assert_eq!(gb.registers.a, 0x5A);
}

#[test]
fn add_a_r8_sets_all_flags() {
    let mut gb = program(&[0x80]); // ADD A, B
    gb.registers.a = 0x3A;
    gb.registers.b = 0xC6;
    gb.step();
    assert_eq!(gb.registers.a, 0x00);
    let f = gb.registers.f;
    assert!(f.z && !f.n && f.h && f.c);
}

#[test]
fn adc_uses_carry_in() {
    let mut gb = program(&[0x88]); // ADC A, B
    gb.registers.a = 0xFF;
    gb.registers.b = 0x00;
    gb.registers.f.c = true;
    gb.step();
    assert_eq!(gb.registers.a, 0x00);
    let f = gb.registers.f;
    assert!(f.z && f.h && f.c && !f.n);
}

#[test]
fn sub_a_r8_borrows() {
    let mut gb = program(&[0x90]); // SUB A, B
    gb.registers.a = 0x3E;
    gb.registers.b = 0x40;
    gb.step();
    assert_eq!(gb.registers.a, 0xFE);
    let f = gb.registers.f;
    assert!(!f.z && f.n && f.c);
    assert!(!f.h, "low nibbles 0xE - 0x0 do not borrow");
}

#[test]
fn sub_a_r8_half_borrow() {
    let mut gb = program(&[0x90]); // SUB A, B
    gb.registers.a = 0x10;
    gb.registers.b = 0x01;
    gb.step();
    assert_eq!(gb.registers.a, 0x0F);
    let f = gb.registers.f;
    assert!(f.h && f.n && !f.c && !f.z);
}

#[test]
fn sbc_uses_carry_in() {
    let mut gb = program(&[0x98]); // SBC A, B
    gb.registers.a = 0x00;
    gb.registers.b = 0x00;
    gb.registers.f.c = true;
    gb.step();
    assert_eq!(gb.registers.a, 0xFF);
    let f = gb.registers.f;
    assert!(!f.z && f.n && f.h && f.c);
}

#[test]
fn and_xor_or_fixed_flags() {
    let mut gb = program(&[0xA0, 0xA8, 0xB0]); // AND B, XOR B, OR B
    gb.registers.a = 0x5A;
    gb.registers.b = 0x0F;
    gb.step();
    assert_eq!(gb.registers.a, 0x0A);
    assert!(gb.registers.f.h && !gb.registers.f.z && !gb.registers.f.c);
    gb.step();
    assert_eq!(gb.registers.a, 0x05);
    assert!(!gb.registers.f.h && !gb.registers.f.z);
    gb.registers.b = 0x00;
    gb.registers.a = 0x00;
    gb.step();
    assert_eq!(gb.registers.a, 0x00);
    assert!(gb.registers.f.z && !gb.registers.f.h && !gb.registers.f.c);
}

#[test]
fn cp_compares_without_writing_a() {
    let mut gb = program(&[0xB8]); // CP A, B
    gb.registers.a = 0x3C;
    gb.registers.b = 0x40;
    gb.step();
    assert_eq!(gb.registers.a, 0x3C);
    let f = gb.registers.f;
    assert!(!f.z && f.n && f.c);
}

#[test]
fn alu_against_hl_operand() {
    let mut gb = program(&[0x86]); // ADD A, [HL]
    gb.registers.a = 0x01;
    gb.registers.set_hl(0xC000);
    gb.gb_memory.write_byte(0xC000, 0x41);
    gb.step();
    assert_eq!(gb.registers.a, 0x42);
}

#[test]
fn alu_immediate_forms() {
    let mut gb = program(&[0xC6, 0x10, 0xD6, 0x01, 0xE6, 0x0C, 0xEE, 0xFF, 0xF6, 0x30, 0xFE, 0xC3]);
    gb.registers.a = 0x01;
    gb.step(); // ADD A, 0x10
    assert_eq!(gb.registers.a, 0x11);
    gb.step(); // SUB A, 0x01
    assert_eq!(gb.registers.a, 0x10);
    assert!(gb.registers.f.n);
    gb.step(); // AND A, 0x0C
    assert_eq!(gb.registers.a, 0x00);
    assert!(gb.registers.f.z && gb.registers.f.h);
    gb.step(); // XOR A, 0xFF
    assert_eq!(gb.registers.a, 0xFF);
    gb.step(); // OR A, 0x30
    assert_eq!(gb.registers.a, 0xFF);
    gb.step(); // CP A, 0xC3
    assert_eq!(gb.registers.a, 0xFF);
    assert!(!gb.registers.f.z && !gb.registers.f.c);
}

#[test]
fn adc_immediate_with_carry_in() {
    let mut gb = program(&[0xCE, 0xFF]); // ADC A, 0xFF
    gb.registers.a = 0x01;
    gb.registers.f.c = true;
    gb.step();
    assert_eq!(gb.registers.a, 0x01);
    assert!(gb.registers.f.c && gb.registers.f.h && !gb.registers.f.z);
}

#[test]
fn sbc_immediate_with_carry_in() {
    let mut gb = program(&[0xDE, 0x0F]); // SBC A, 0x0F
    gb.registers.a = 0x20;
    gb.registers.f.c = true;
    gb.step();
    assert_eq!(gb.registers.a, 0x10);
    assert!(gb.registers.f.n && gb.registers.f.h && !gb.registers.f.c);
}

#[test]
fn jp_and_jp_hl() {
    let mut gb = program(&[0xC3, 0x34, 0x12]); // JP 0x1234
    gb.step();
    assert_eq!(gb.registers.program_counter, 0x1234);
    let mut gb2 = program(&[0xE9]); // JP HL
    gb2.registers.set_hl(0x4000);
    gb2.step();
    assert_eq!(gb2.registers.program_counter, 0x4000);
}

#[test]
fn jp_cond_consumes_immediate_when_not_taken() {
    let mut gb = program(&[0xC2, 0x00, 0x20]); // JP NZ, 0x2000
    gb.registers.f.z = true;
    gb.step();
    assert_eq!(gb.registers.program_counter, 0x0103);
    gb.registers.f.z = false;
    let mut taken = program(&[0xC2, 0x00, 0x20]);
    taken.step();
    assert_eq!(taken.registers.program_counter, 0x2000);
}

#[test]
fn call_cond_pushes_only_when_taken() {
    let mut gb = program(&[0xC4, 0x00, 0x02]); // CALL NZ, 0x0200
    gb.registers.f.z = true;
    gb.step();
    assert_eq!(gb.registers.program_counter, 0x0103);
    assert_eq!(gb.registers.stack_pointer, 0xFFFE);
    let mut taken = program(&[0xC4, 0x00, 0x02]);
    taken.step();
    assert_eq!(taken.registers.program_counter, 0x0200);
    assert_eq!(taken.registers.stack_pointer, 0xFFFC);
    assert_eq!(taken.gb_memory.read_byte(0xFFFD), 0x01);
    assert_eq!(taken.gb_memory.read_byte(0xFFFC), 0x03);
}

#[test]
fn ret_cond_pops_only_when_taken() {
    let mut gb = machine(&[(0x100, 0xC8)]); // RET Z
    gb.push_stack_word(0x0456);
    gb.registers.f.z = false;
    gb.step();
    assert_eq!(gb.registers.program_counter, 0x0101);
    let mut taken = machine(&[(0x100, 0xC8)]);
    taken.push_stack_word(0x0456);
    taken.registers.f.z = true;
    taken.step();
    assert_eq!(taken.registers.program_counter, 0x0456);
    assert_eq!(taken.registers.stack_pointer, 0xFFFE);
}

#[test]
fn rst_calls_fixed_vector() {
    let mut gb = program(&[0xEF]); // RST 0x28
    gb.step();
    assert_eq!(gb.registers.program_counter, 0x0028);
    assert_eq!(gb.registers.stack_pointer, 0xFFFC);
    assert_eq!(gb.gb_memory.read_byte(0xFFFC), 0x01, "return address 0x0101 pushed");
}

#[test]
fn push_pop_r16stk_and_af_flag_restore() {
    let mut gb = program(&[0xC5, 0xF1]); // PUSH BC ; POP AF
    gb.registers.set_bc(0x12F0);
    gb.step();
    gb.step();
    assert_eq!(gb.registers.a, 0x12);
    let f = gb.registers.f;
    assert!(f.z && f.n && f.h && f.c, "POP AF restores the flags from the low byte");
    assert_eq!(gb.registers.get_af(), 0x12F0);
}

#[test]
fn reti_rearms_the_latch() {
    let mut gb = machine(&[(0x100, 0xD9)]); // RETI
    gb.push_stack_word(0x0321);
    assert!(!gb.interrupt_master_flag);
    gb.step();
    assert_eq!(gb.registers.program_counter, 0x0321);
    assert!(gb.interrupt_master_flag);
}

#[test]
fn ei_and_di_toggle_the_latch() {
    let mut gb = program(&[0xFB, 0xF3]);
    gb.step();
    assert!(gb.interrupt_master_flag);
    gb.step();
    assert!(!gb.interrupt_master_flag);
}

#[test]
fn ldh_variants_use_the_high_page() {
    let mut gb = program(&[0xE0, 0x80, 0xF0, 0x80]); // LDH [0x80], A ; LDH A, [0x80]
    gb.registers.a = 0x5C;
    gb.step();
    assert_eq!(gb.gb_memory.read_byte(0xFF80), 0x5C);
    gb.registers.a = 0;
    gb.step();
    assert_eq!(gb.registers.a, 0x5C);
    assert_eq!(gb.registers.program_counter, 0x0104);
}

#[test]
fn ldh_through_register_c() {
    let mut gb = program(&[0xE2, 0xF2]); // LDH [0xFF00+C], A ; LDH A, [0xFF00+C]
    gb.registers.c = 0x81;
    gb.registers.a = 0x9D;
    gb.step();
    assert_eq!(gb.gb_memory.read_byte(0xFF81), 0x9D);
    gb.registers.a = 0;
    gb.step();
    assert_eq!(gb.registers.a, 0x9D);
}

#[test]
fn ld_a_through_imm16() {
    let mut gb = program(&[0xEA, 0x00, 0xC0, 0xFA, 0x00, 0xC0]); // LD [0xC000], A ; LD A, [0xC000]
    gb.registers.a = 0x77;
    gb.step();
    assert_eq!(gb.gb_memory.read_byte(0xC000), 0x77);
    gb.registers.a = 0;
    gb.step();
    assert_eq!(gb.registers.a, 0x77);
}

#[test]
fn add_sp_signed_displacement() {
    let mut gb = program(&[0xE8, 0xFE]); // ADD SP, -2
    gb.step();
    assert_eq!(gb.registers.stack_pointer, 0xFFFC);
    let f = gb.registers.f;
    assert!(!f.z && !f.n);
    assert!(f.h, "low nibbles 0xE + 0xE carry");
    assert!(f.c, "low bytes 0xFE + 0xFE carry");
}

#[test]
fn ld_hl_sp_plus_displacement() {
    let mut gb = program(&[0xF8, 0x02]); // LD HL, SP+2
    gb.step();
    assert_eq!(gb.registers.get_hl(), 0x0000, "0xFFFE + 2 wraps");
    assert_eq!(gb.registers.stack_pointer, 0xFFFE, "SP itself is unchanged");
    assert!(gb.registers.f.h && gb.registers.f.c);
}

#[test]
fn ld_sp_hl() {
    let mut gb = program(&[0xF9]);
    gb.registers.set_hl(0xD000);
    gb.step();
    assert_eq!(gb.registers.stack_pointer, 0xD000);
}

#[test]
fn program_counter_wraps_at_the_top() {
    let mut gb = machine(&[]); // byte at 0xFFFF is 0x00: NOP
    gb.registers.program_counter = 0xFFFF;
    assert_eq!(gb.step(), StepOutcome::Executed);
    assert_eq!(gb.registers.program_counter, 0x0000);
}

#[test]
fn execute_op_reports_the_classification() {
    let mut gb = machine(&[]);
    assert_eq!(execute_op(&mut gb, 0x00), OpOutcome::Recognized);
    assert_eq!(execute_op(&mut gb, 0xD3), OpOutcome::Unrecognized);
    assert_eq!(execute_op(&mut gb, 0xCB), OpOutcome::Unrecognized);
    assert_eq!(execute_op(&mut gb, 0x80), OpOutcome::Recognized);
}

#[test]
fn rom_image_is_padded_and_entry_state_fixed() {
    let gb = Gb::new(&[0xAA, 0xBB]);
    assert_eq!(gb.gb_memory.read_byte(0x0000), 0xAA);
    assert_eq!(gb.gb_memory.read_byte(0x0001), 0xBB);
    assert_eq!(gb.gb_memory.read_byte(0x0002), 0x00);
    assert_eq!(gb.registers.program_counter, 0x0100);
    assert_eq!(gb.registers.stack_pointer, 0xFFFE);
    assert!(!gb.interrupt_master_flag && !gb.halted);
}

#[test]
fn ld_through_bc_and_de() {
    let mut gb = program(&[0x02, 0x1A]); // LD [BC], A ; LD A, [DE]
    gb.registers.a = 0x31;
    gb.registers.set_bc(0xC100);
    gb.registers.set_de(0xC200);
    gb.gb_memory.write_byte(0xC200, 0x7B);
    gb.step();
    assert_eq!(gb.gb_memory.read_byte(0xC100), 0x31);
    assert_eq!(gb.registers.get_bc(), 0xC100, "BC access has no side effect");
    gb.step();
    assert_eq!(gb.registers.a, 0x7B);
    assert_eq!(gb.registers.get_de(), 0xC200);
}

#[test]
fn inc_and_dec_through_hl() {
    let mut gb = program(&[0x34, 0x35, 0x35]); // INC [HL] ; DEC [HL] ; DEC [HL]
    gb.registers.set_hl(0xC080);
    gb.gb_memory.write_byte(0xC080, 0x0F);
    gb.step();
    assert_eq!(gb.gb_memory.read_byte(0xC080), 0x10);
    assert!(gb.registers.f.h);
    gb.step();
    assert_eq!(gb.gb_memory.read_byte(0xC080), 0x0F);
    assert!(gb.registers.f.h && gb.registers.f.n);
    gb.step();
    assert_eq!(gb.gb_memory.read_byte(0xC080), 0x0E);
    assert!(!gb.registers.f.h);
}

#[test]
fn store_to_divider_address_resets_it() {
    // the write barrier holds on the instruction path too
    let mut gb = program(&[0xE0, 0x04]); // LDH [0xFF04], A
    gb.registers.a = 0x5A;
    gb.gb_memory.tick_div();
    gb.gb_memory.tick_div();
    gb.step();
    assert_eq!(gb.gb_memory.read_byte(0xFF04), 0x00);
}

#[test]
fn load_from_joypad_address_reads_all_ones() {
    let mut gb = program(&[0xF0, 0x00]); // LDH A, [0xFF00]
    gb.step();
    assert_eq!(gb.registers.a, 0xFF);
}

#[test]
fn rst_vector_zero() {
    let mut gb = program(&[0xC7]); // RST 0x00
    gb.step();
    assert_eq!(gb.registers.program_counter, 0x0000);
}

#[test]
fn jr_wraps_around_address_space() {
    let mut gb = machine(&[(0x0000, 0x18), (0x0001, 0xFC)]); // JR -4 at 0x0000
    gb.registers.program_counter = 0x0000;
    gb.step();
    assert_eq!(gb.registers.program_counter, 0xFFFE);
}

#[test]
fn ld_r16_imm16_selects_each_pair() {
    let mut gb = program(&[
        0x01, 0x11, 0x11, // LD BC, 0x1111
        0x11, 0x22, 0x22, // LD DE, 0x2222
        0x21, 0x33, 0x33, // LD HL, 0x3333
        0x31, 0x44, 0x44, // LD SP, 0x4444
    ]);
    gb.step();
    gb.step();
    gb.step();
    gb.step();
    assert_eq!(gb.registers.get_bc(), 0x1111);
    assert_eq!(gb.registers.get_de(), 0x2222);
    assert_eq!(gb.registers.get_hl(), 0x3333);
    assert_eq!(gb.registers.stack_pointer, 0x4444);
}
