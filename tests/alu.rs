use neks::alu;

fn signed(x: u8) -> i32 {
    x as i8 as i32
}

#[test]
fn adc_matches_wide_sum_for_all_inputs() {
    for a in 0..=255u8 {
        for b in 0..=255u8 {
            for c in [false, true] {
                let (v, carry, overflow) = alu::adc(a, b, c);
                let sum = a as u32 + b as u32 + c as u32;
                assert_eq!(v as u32, sum % 256);
                assert_eq!(carry, sum >= 256);
                let ssum = signed(a) + signed(b) + c as i32;
                assert_eq!(overflow, !(-128..=127).contains(&ssum));
            }
        }
    }
}

#[test]
fn adc_examples() {
    assert_eq!(alu::adc(0x50, 0x50, false), (0xa0, false, true));
    assert_eq!(alu::adc(0xff, 0x01, false), (0x00, true, false));
    assert_eq!(alu::adc(0x80, 0x80, false), (0x00, true, true));
    assert_eq!(alu::adc(0x7f, 0x00, true), (0x80, false, true));
}

#[test]
fn compare_sets_carry_when_no_borrow() {
    let (v, carry) = alu::cmp(0x50, 0x10);
    assert!(carry);
    assert_ne!(v, 0);
    let (_, carry) = alu::cmp(0x10, 0x50);
    assert!(!carry);
    assert_eq!(alu::cmp(0x42, 0x42), (0, true));
}

#[test]
fn subtract_with_borrow() {
    assert_eq!(alu::sbc(0x50, 0x10, true), (0x40, true, false));
    assert_eq!(alu::sbc(0x50, 0x10, false), (0x3f, true, false));
    assert_eq!(alu::sbc(0x10, 0x50, true), (0xc0, false, false));
    assert_eq!(alu::sbc(0x80, 0x01, true), (0x7f, true, true));
}

#[test]
fn increments_and_decrements_wrap() {
    assert_eq!(alu::inc(0xff), 0);
    assert_eq!(alu::inc(0x41), 0x42);
    assert_eq!(alu::dec(0), 0xff);
    assert_eq!(alu::dec(0x42), 0x41);
}

#[test]
fn shifts_and_rotations() {
    assert_eq!(alu::asl(0x81), (0x02, true));
    assert_eq!(alu::lsr(0x81), (0x40, true));
    assert_eq!(alu::lsr(0x02), (0x01, false));
    assert_eq!(alu::rol(0x81, true), (0x03, true));
    assert_eq!(alu::ror(0x81, true), (0xc0, true));
    assert_eq!(alu::ror(0x02, false), (0x01, false));
}

#[test]
fn bitwise_operations() {
    assert_eq!(alu::and(0xf0, 0x3c), 0x30);
    assert_eq!(alu::or(0xf0, 0x0f), 0xff);
    assert_eq!(alu::eor(0xff, 0x0f), 0xf0);
}
