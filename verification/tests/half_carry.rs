use gameboy_core::arith::{
    calculate_byte_half_carry_add, calculate_byte_half_carry_sub, calculate_word_half_carry_add,
};

#[test]
fn half_carry_add_exhaustive() {
    // half_carry(a,b) == ((a & 0xF) + (b & 0xF)) > 0xF over every byte pair
    for a in 0..=255u8 {
        for b in 0..=255u8 {
            let expected = ((a & 0x0F) as u16 + (b & 0x0F) as u16) > 0x0F;
            assert_eq!(
                calculate_byte_half_carry_add(a, b),
                expected,
                "half-carry wrong for {:#x} + {:#x}",
                a,
                b
            );
        }
    }
}

#[test]
fn half_carry_add_examples() {
    assert!(calculate_byte_half_carry_add(0x0F, 0x01));
    assert!(calculate_byte_half_carry_add(0x08, 0x08));
    assert!(!calculate_byte_half_carry_add(0xF0, 0x0F));
    assert!(!calculate_byte_half_carry_add(0x00, 0x00));
}

#[test]
fn half_carry_sub_borrows_from_bit_four() {
    for a in 0..=255u8 {
        for b in 0..=255u8 {
            let expected = (a & 0x0F) < (b & 0x0F);
            assert_eq!(calculate_byte_half_carry_sub(a, b), expected);
        }
    }
    assert!(calculate_byte_half_carry_sub(0x10, 0x01));
    assert!(!calculate_byte_half_carry_sub(0x1F, 0x01));
}

#[test]
fn word_half_carry_uses_low_bytes() {
    assert!(calculate_word_half_carry_add(0x00FF, 0x0001));
    assert!(calculate_word_half_carry_add(0x0880, 0x0180));
    assert!(!calculate_word_half_carry_add(0xFF00, 0x00FF));
    assert!(!calculate_word_half_carry_add(0x0F00, 0x00F0));
}
