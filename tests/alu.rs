use mudkip::alu::{add_with_carry, rotate_left, rotate_right, subtract_with_carry};

/// A ripple-carry adder over the eight bits, with overflow taken from the carries
/// into and out of bit 7.
fn bitwise_add(a: u8, b: u8, carry: bool) -> (u8, bool, bool) {
    let mut c = carry;
    let mut result = 0u8;
    let mut carry_into_top = false;
    for bit in 0..8 {
        let x = (a >> bit) & 1 == 1;
        let y = (b >> bit) & 1 == 1;
        if bit == 7 {
            carry_into_top = c;
        }
        if x ^ y ^ c {
            result |= 1 << bit;
        }
        c = (x && y) || (x && c) || (y && c);
    }
    (result, c, carry_into_top != c)
}

#[test]
fn adc_matches_bitwise_adder_for_every_input() {
    for a in 0..=255u8 {
        for b in 0..=255u8 {
            for carry in [false, true] {
                assert_eq!(add_with_carry(a, b, carry), bitwise_add(a, b, carry), "{} {} {}", a, b, carry);
            }
        }
    }
}

#[test]
fn sbc_matches_bitwise_adder_of_complement_for_every_input() {
    for a in 0..=255u8 {
        for b in 0..=255u8 {
            for carry in [false, true] {
                assert_eq!(subtract_with_carry(a, b, carry), bitwise_add(a, !b, carry), "{} {} {}", a, b, carry);
            }
        }
    }
}

#[test]
fn adc_examples() {
    assert_eq!(add_with_carry(0x05, 0x03, false), (0x08, false, false));
    assert_eq!(add_with_carry(0xff, 0x01, false), (0x00, true, false));
    assert_eq!(add_with_carry(0x7f, 0x01, false), (0x80, false, true));
    assert_eq!(add_with_carry(0x80, 0x80, false), (0x00, true, true));
    assert_eq!(add_with_carry(0x10, 0x20, true), (0x31, false, false));
}

#[test]
fn sbc_examples() {
    assert_eq!(subtract_with_carry(0x08, 0x03, true), (0x05, true, false));
    assert_eq!(subtract_with_carry(0x08, 0x03, false), (0x04, true, false));
    assert_eq!(subtract_with_carry(0x00, 0x01, true), (0xff, false, false));
    assert_eq!(subtract_with_carry(0x80, 0x01, true), (0x7f, true, true));
}

#[test]
fn adc_then_sbc_with_complemented_carry_restores_accumulator() {
    for a in 0..=255u8 {
        for b in [0u8, 1, 0x7f, 0x80, 0xff] {
            for carry in [false, true] {
                let (sum, _, _) = add_with_carry(a, b, carry);
                assert_eq!(subtract_with_carry(sum, b, !carry).0, a);
            }
        }
    }
}

#[test]
fn shifts_and_rotates() {
    assert_eq!(rotate_left(0x81, false), (0x02, true));
    assert_eq!(rotate_left(0x81, true), (0x03, true));
    assert_eq!(rotate_left(0x40, false), (0x80, false));
    assert_eq!(rotate_right(0x81, false), (0x40, true));
    assert_eq!(rotate_right(0x81, true), (0xc0, true));
    assert_eq!(rotate_right(0x02, false), (0x01, false));
}
