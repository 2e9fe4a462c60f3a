use gameboy_core::gb_memory::GbMemory;
use gameboy_core::gb_memory::InterruptFlags;

fn blank_memory() -> GbMemory {
    GbMemory { memory_array: vec![0u8; 0x10000] }
}

#[test]
fn divider_write_always_reads_zero() {
    // the divider cell reads back 0 after a write of any byte value
    let mut mem = blank_memory();
    for n in 0..=255u8 {
        mem.tick_div();
        mem.write_byte(0xFF04, n);
        assert_eq!(mem.read_byte(0xFF04), 0, "divider kept a written value: {}", n);
    }
}

#[test]
fn joypad_reads_all_ones() {
    let mut mem = blank_memory();
    mem.write_byte(0xFF00, 0x00);
    assert_eq!(mem.read_byte(0xFF00), 0xFF);
    mem.write_byte(0xFF00, 0x5A);
    assert_eq!(mem.read_byte(0xFF00), 0xFF);
}

#[test]
fn plain_cells_store_what_was_written() {
    let mut mem = blank_memory();
    mem.write_byte(0x0000, 0x11);
    mem.write_byte(0x8000, 0x22);
    mem.write_byte(0xFFFE, 0x33);
    assert_eq!(mem.read_byte(0x0000), 0x11);
    assert_eq!(mem.read_byte(0x8000), 0x22);
    assert_eq!(mem.read_byte(0xFFFE), 0x33);
}

#[test]
fn divider_ticks_and_wraps() {
    let mut mem = blank_memory();
    mem.tick_div();
    mem.tick_div();
    assert_eq!(mem.read_byte(0xFF04), 2);
    mem.memory_array[0xFF04] = 0xFF;
    mem.tick_div();
    assert_eq!(mem.read_byte(0xFF04), 0);
}

#[test]
fn tima_counts_up() {
    let mut mem = blank_memory();
    mem.tick_tima();
    mem.tick_tima();
    mem.tick_tima();
    assert_eq!(mem.read_byte(0xFF05), 3);
    // no interrupt request while the counter merely counts
    assert_eq!(mem.read_byte(0xFF0F), 0);
}

#[test]
fn tima_overflow_reloads_and_requests_interrupt() {
    let mut mem = blank_memory();
    mem.write_byte(0xFF05, 0xFF);
    mem.write_byte(0xFF06, 0xAB);
    mem.tick_tima();
    assert_eq!(mem.read_byte(0xFF05), 0xAB, "counter reloads from the modulo cell");
    assert_eq!(mem.read_byte(0xFF0F) & 0x04, 0x04, "timer request bit raised");
}

#[test]
fn tima_overflow_keeps_other_request_bits() {
    let mut mem = blank_memory();
    mem.write_byte(0xFF0F, 0x01);
    mem.write_byte(0xFF05, 0xFF);
    mem.tick_tima();
    assert_eq!(mem.read_byte(0xFF0F), 0x05);
}

#[test]
fn tima_rate_disabled_when_enable_bit_clear() {
    let mut mem = blank_memory();
    mem.write_byte(0xFF07, 0x00);
    assert_eq!(mem.get_tima_ticks_per_second(), 0);
    mem.write_byte(0xFF07, 0x03);
    assert_eq!(mem.get_tima_ticks_per_second(), 0);
}

#[test]
fn tima_rate_selects_four_frequencies() {
    let mut mem = blank_memory();
    mem.write_byte(0xFF07, 0x04);
    assert_eq!(mem.get_tima_ticks_per_second(), 4096);
    mem.write_byte(0xFF07, 0x05);
    assert_eq!(mem.get_tima_ticks_per_second(), 262144);
    mem.write_byte(0xFF07, 0x06);
    assert_eq!(mem.get_tima_ticks_per_second(), 65536);
    mem.write_byte(0xFF07, 0x07);
    assert_eq!(mem.get_tima_ticks_per_second(), 16384);
}

#[test]
fn interrupt_flags_byte_round_trip() {
    let fl = InterruptFlags::get_flags_from_byte(0b10101);
    assert!(fl.v_blank && !fl.lcd && fl.timer && !fl.serial && fl.joypad);
    assert_eq!(fl.get_byte_from_flag(), 0b10101);
    // the top three bits carry no flag
    let fl2 = InterruptFlags::get_flags_from_byte(0xE2);
    assert!(!fl2.v_blank && fl2.lcd && !fl2.timer && !fl2.serial && !fl2.joypad);
    assert_eq!(fl2.get_byte_from_flag(), 0x02);
}
