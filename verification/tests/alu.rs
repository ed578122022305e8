use gameboy_emulator::alu::{
    add16, add8, add_offset, add_sp, and8, bit8, daa, dec8, inc8, or8, rl8, rlc8, rr8, rrc8, sla8, sra8, srl8,
    sub8, swap8, xor8,
};
use gameboy_emulator::registers::FlagsRegister;

fn flags(z: bool, n: bool, h: bool, c: bool) -> FlagsRegister {
    FlagsRegister { zero: z, subtract: n, half_carry: h, carry: c }
}

#[test]
fn add8_sets_all_carries_on_wrap_to_zero() {
    let (r, f) = add8(0x3A, 0xC6, false);
    assert_eq!(r, 0x00);
    assert_eq!(f, flags(true, false, true, true));
}

#[test]
fn add8_with_carry_in() {
    let (r, f) = add8(0xE1, 0x0F, true);
    assert_eq!(r, 0xF1);
    assert_eq!(f, flags(false, false, true, false));
    let (r, f) = add8(0xE1, 0x1E, true);
    assert_eq!(r, 0x00);
    assert_eq!(f, flags(true, false, true, true));
}

#[test]
fn sub8_values_and_flags() {
    assert_eq!(sub8(0x3E, 0x3E, false), (0x00, flags(true, true, false, false)));
    assert_eq!(sub8(0x3E, 0x0F, false), (0x2F, flags(false, true, true, false)));
    assert_eq!(sub8(0x3E, 0x40, false), (0xFE, flags(false, true, false, true)));
    assert_eq!(sub8(0x3B, 0x2A, true), (0x10, flags(false, true, false, false)));
    assert_eq!(sub8(0x3B, 0x3A, true), (0x00, flags(true, true, false, false)));
}

#[test]
fn add_then_sub_gives_back_the_operand() {
    for a in [0u8, 1, 0x0F, 0x80, 0xFF] {
        for v in [0u8, 0x01, 0x10, 0x7F, 0xFF] {
            let (s, _) = add8(a, v, false);
            let (d, _) = sub8(s, v, false);
            assert_eq!(d, a);
        }
    }
}

#[test]
fn logic_operations() {
    assert_eq!(and8(0x5A, 0x3F), (0x1A, flags(false, false, true, false)));
    assert_eq!(and8(0x5A, 0x00), (0x00, flags(true, false, true, false)));
    assert_eq!(or8(0x5A, 0x0F), (0x5F, flags(false, false, false, false)));
    assert_eq!(or8(0x00, 0x00), (0x00, flags(true, false, false, false)));
    assert_eq!(xor8(0xFF, 0xFF), (0x00, flags(true, false, false, false)));
    assert_eq!(xor8(0xFF, 0x0F), (0xF0, flags(false, false, false, false)));
}

#[test]
fn inc_and_dec_keep_carry() {
    let f = flags(false, false, false, true);
    assert_eq!(inc8(0xFF, f), (0x00, flags(true, false, true, true)));
    assert_eq!(inc8(0x50, f), (0x51, flags(false, false, false, true)));
    assert_eq!(dec8(0x01, f), (0x00, flags(true, true, false, true)));
    assert_eq!(dec8(0x00, f), (0xFF, flags(false, true, true, true)));
}

#[test]
fn add16_half_carry_from_bit_11() {
    let f = flags(true, true, false, false);
    assert_eq!(add16(0x8A23, 0x0605, f), (0x9028, flags(true, false, true, false)));
    assert_eq!(add16(0x8A23, 0x8A23, f), (0x1446, flags(true, false, true, true)));
}

#[test]
fn signed_offsets() {
    assert_eq!(add_offset(0x1000, 0xFE), 0x0FFE);
    assert_eq!(add_offset(0x1000, 0x05), 0x1005);
    assert_eq!(add_offset(0xFFFF, 0x01), 0x0000);
    assert_eq!(add_sp(0xFFF8, 0x02), (0xFFFA, flags(false, false, false, false)));
    assert_eq!(add_sp(0x00FF, 0x01), (0x0100, flags(false, false, true, true)));
    assert_eq!(add_sp(0x0005, 0xFF), (0x0004, flags(false, false, true, true)));
}

#[test]
fn daa_after_addition_and_subtraction() {
    let (sum, f) = add8(0x45, 0x38, false);
    assert_eq!(sum, 0x7D);
    let (a, f2) = daa(sum, f);
    assert_eq!(a, 0x83);
    assert_eq!(f2, flags(false, false, false, false));

    let (diff, f) = sub8(0x83, 0x38, false);
    assert_eq!(diff, 0x4B);
    let (a, f2) = daa(diff, f);
    assert_eq!(a, 0x45);
    assert_eq!(f2, flags(false, true, false, false));

    let (sum, f) = add8(0x99, 0x01, false);
    let (a, f2) = daa(sum, f);
    assert_eq!(a, 0x00);
    assert_eq!(f2, flags(true, false, false, true));
}

#[test]
fn rotates_and_shifts() {
    assert_eq!(rlc8(0x85), (0x0B, true));
    assert_eq!(rrc8(0x01), (0x80, true));
    assert_eq!(rl8(0x80, false), (0x00, true));
    assert_eq!(rl8(0x11, true), (0x23, false));
    assert_eq!(rr8(0x01, false), (0x00, true));
    assert_eq!(rr8(0x8A, true), (0xC5, false));
    assert_eq!(sla8(0x80), (0x00, true));
    assert_eq!(sla8(0x41), (0x82, false));
    assert_eq!(sra8(0x8A), (0xC5, false));
    assert_eq!(sra8(0x01), (0x00, true));
    assert_eq!(srl8(0x01), (0x00, true));
    assert_eq!(srl8(0xFF), (0x7F, true));
    assert_eq!(swap8(0xF0), 0x0F);
    assert_eq!(swap8(0x12), 0x21);
}

#[test]
fn bit_test_sets_half_carry_and_keeps_carry() {
    let f = flags(false, true, false, true);
    assert_eq!(bit8(7, 0x80, f), flags(false, false, true, true));
    assert_eq!(bit8(0, 0x80, f), flags(true, false, true, true));
}

#[test]
fn daa_gives_decimal_sums_and_differences() {
    let cases_add = [(0x45u8, 0x55u8, 0x00u8, true), (0x09, 0x01, 0x10, false), (0x99, 0x99, 0x98, true), (0x38, 0x49, 0x87, false)];
    for (a, b, expected, carry) in cases_add {
        let (s, f) = add8(a, b, false);
        let (r, g) = daa(s, f);
        assert_eq!((r, g.carry), (expected, carry));
    }
    let cases_sub = [(0x10u8, 0x01u8, 0x09u8, false), (0x00, 0x01, 0x99, true), (0x50, 0x25, 0x25, false), (0x12, 0x89, 0x23, true)];
    for (a, b, expected, carry) in cases_sub {
        let (d, f) = sub8(a, b, false);
        let (r, g) = daa(d, f);
        assert_eq!((r, g.carry), (expected, carry));
    }
}
