use vstd::prelude::*;

use crate::registers::FlagsRegister;

verus! {

/// The flags of an 8-bit addition of `a`, `v` and a carry in.
pub open spec fn add_flags(a: u8, v: u8, carry_in: bool) -> FlagsRegister {
    let c: int = if carry_in { 1 } else { 0 };
    FlagsRegister {
        zero: (a + v + c) % 256 == 0,
        subtract: false,
        half_carry: a % 16 + v % 16 + c > 15,
        carry: a + v + c > 255,
    }
}

/// The sum of `a`, `v` and a carry in, modulo 256.
pub open spec fn add_value(a: u8, v: u8, carry_in: bool) -> u8 {
    ((a + v + (if carry_in { 1int } else { 0int })) % 256) as u8
}

/// The flags of an 8-bit subtraction of `v` and a borrow from `a`.
pub open spec fn sub_flags(a: u8, v: u8, carry_in: bool) -> FlagsRegister {
    let c: int = if carry_in { 1 } else { 0 };
    FlagsRegister {
        zero: (a - v - c) % 256 == 0,
        subtract: true,
        half_carry: a % 16 < v % 16 + c,
        carry: a < v + c,
    }
}

/// `a` minus `v` minus a borrow, modulo 256.
pub open spec fn sub_value(a: u8, v: u8, carry_in: bool) -> u8 {
    ((a - v - (if carry_in { 1int } else { 0int })) % 256) as u8
}

/// Flags of a logical operation with result `r`: Z from the result, H as given, N and C clear.
pub open spec fn logic_flags(r: u8, half_carry: bool) -> FlagsRegister {
    FlagsRegister { zero: r == 0, subtract: false, half_carry, carry: false }
}

/// Flags of a rotate or shift with result `r` and carry out `carry`.
pub open spec fn shift_flags(r: u8, carry: bool) -> FlagsRegister {
    FlagsRegister { zero: r == 0, subtract: false, half_carry: false, carry }
}

/// INC: the register plus one; C is kept.
pub open spec fn inc_result(x: u8, f: FlagsRegister) -> (u8, FlagsRegister) {
    (
        ((x + 1) % 256) as u8,
        FlagsRegister { zero: (x + 1) % 256 == 0, subtract: false, half_carry: x % 16 == 15, ..f },
    )
}

/// DEC: the register minus one; C is kept.
pub open spec fn dec_result(x: u8, f: FlagsRegister) -> (u8, FlagsRegister) {
    (
        ((x - 1) % 256) as u8,
        FlagsRegister { zero: x == 1, subtract: true, half_carry: x % 16 == 0, ..f },
    )
}

/// ADD HL,rr: the 16-bit sum; Z is kept.
pub open spec fn add16_result(hl: u16, v: u16, f: FlagsRegister) -> (u16, FlagsRegister) {
    (
        ((hl + v) % 65536) as u16,
        FlagsRegister {
            subtract: false,
            half_carry: hl % 4096 + v % 4096 > 4095,
            carry: hl + v > 65535,
            ..f
        },
    )
}

/// The signed value of an offset byte.
pub open spec fn signed(e: u8) -> int {
    if e < 128 {
        e as int
    } else {
        e - 256
    }
}

/// SP plus a signed offset, with the flags of ADD SP,e and LD HL,SP+e: Z and N clear,
/// H and C from the unsigned addition of the offset byte to the low byte of SP.
pub open spec fn add_sp_result(sp: u16, e: u8) -> (u16, FlagsRegister) {
    (
        ((sp + signed(e)) % 65536) as u16,
        FlagsRegister {
            zero: false,
            subtract: false,
            half_carry: sp % 16 + e % 16 > 15,
            carry: sp % 256 + e > 255,
        },
    )
}

/// An address moved by a signed offset, wrapping around the 16-bit space.
pub open spec fn offset_address(base: u16, e: u8) -> u16 {
    ((base + signed(e)) % 65536) as u16
}

/// DAA: corrects A after a BCD addition or subtraction; N is kept, H cleared.
pub open spec fn daa_result(a: u8, f: FlagsRegister) -> (u8, FlagsRegister) {
    if !f.subtract {
        let hi_fix = f.carry || a > 0x99;
        let a1: int = if hi_fix { (a + 0x60) % 256 } else { a as int };
        let a2: int = if f.half_carry || a1 % 16 > 9 { (a1 + 0x06) % 256 } else { a1 };
        (
            a2 as u8,
            FlagsRegister { zero: a2 == 0, half_carry: false, carry: f.carry || hi_fix, ..f },
        )
    } else {
        let a1: int = if f.carry { (a - 0x60) % 256 } else { a as int };
        let a2: int = if f.half_carry { (a1 - 0x06) % 256 } else { a1 };
        (a2 as u8, FlagsRegister { zero: a2 == 0, half_carry: false, ..f })
    }
}

/// RLC: rotate left, bit 7 into bit 0 and into C.
pub open spec fn rlc_value(x: u8) -> u8 {
    ((x << 1u8) | (x >> 7u8)) as u8
}

/// RRC: rotate right, bit 0 into bit 7 and into C.
pub open spec fn rrc_value(x: u8) -> u8 {
    ((x >> 1u8) | (x << 7u8)) as u8
}

/// RL: rotate left through the carry.
pub open spec fn rl_value(x: u8, carry: bool) -> u8 {
    ((x << 1u8) | (if carry { 1u8 } else { 0u8 })) as u8
}

/// RR: rotate right through the carry.
pub open spec fn rr_value(x: u8, carry: bool) -> u8 {
    ((x >> 1u8) | (if carry { 0x80u8 } else { 0u8 })) as u8
}

/// SRA: shift right keeping bit 7.
pub open spec fn sra_value(x: u8) -> u8 {
    ((x & 0x80u8) | (x >> 1u8)) as u8
}

/// SWAP: exchange the two nibbles.
pub open spec fn swap_value(x: u8) -> u8 {
    ((x >> 4u8) | (x << 4u8)) as u8
}

/// Adds `v` and, when `carry_in`, one to `a`: ADD and ADC.
pub fn add8(a: u8, v: u8, carry_in: bool) -> (r: (u8, FlagsRegister))
    ensures
        r.0 == add_value(a, v, carry_in),
        r.1 == add_flags(a, v, carry_in),
{
    let c: u16 = if carry_in { 1 } else { 0 };
    let sum: u16 = a as u16 + v as u16 + c;
    let result = (sum % 256) as u8;
    let half = (a % 16) as u16 + (v % 16) as u16 + c > 15;
    (result, FlagsRegister { zero: result == 0, subtract: false, half_carry: half, carry: sum > 255 })
}

/// Subtracts `v` and, when `carry_in`, one from `a`: SUB, SBC and CP.
pub fn sub8(a: u8, v: u8, carry_in: bool) -> (r: (u8, FlagsRegister))
    ensures
        r.0 == sub_value(a, v, carry_in),
        r.1 == sub_flags(a, v, carry_in),
{
    let c: u16 = if carry_in { 1 } else { 0 };
    let total: u16 = v as u16 + c;
    let result: u8 = if (a as u16) >= total {
        (a as u16 - total) as u8
    } else {
        (a as u16 + 256 - total) as u8
    };
    let half = ((a % 16) as u16) < (v % 16) as u16 + c;
    (
        result,
        FlagsRegister { zero: result == 0, subtract: true, half_carry: half, carry: (a as u16) < total },
    )
}

/// AND: the flags have H set.
pub fn and8(a: u8, v: u8) -> (r: (u8, FlagsRegister))
    ensures
        r.0 == a & v,
        r.1 == logic_flags(a & v, true),
{
    let result = a & v;
    (result, FlagsRegister { zero: result == 0, subtract: false, half_carry: true, carry: false })
}

/// OR.
pub fn or8(a: u8, v: u8) -> (r: (u8, FlagsRegister))
    ensures
        r.0 == a | v,
        r.1 == logic_flags(a | v, false),
{
    let result = a | v;
    (result, FlagsRegister { zero: result == 0, subtract: false, half_carry: false, carry: false })
}

/// XOR.
pub fn xor8(a: u8, v: u8) -> (r: (u8, FlagsRegister))
    ensures
        r.0 == a ^ v,
        r.1 == logic_flags(a ^ v, false),
{
    let result = a ^ v;
    (result, FlagsRegister { zero: result == 0, subtract: false, half_carry: false, carry: false })
}

/// INC r.
pub fn inc8(x: u8, f: FlagsRegister) -> (r: (u8, FlagsRegister))
    ensures
        r == inc_result(x, f),
{
    let result = if x == 255 { 0 } else { x + 1 };
    (result, FlagsRegister { zero: result == 0, subtract: false, half_carry: x % 16 == 15, ..f })
}

/// DEC r.
pub fn dec8(x: u8, f: FlagsRegister) -> (r: (u8, FlagsRegister))
    ensures
        r == dec_result(x, f),
{
    let result = if x == 0 { 255 } else { x - 1 };
    (result, FlagsRegister { zero: x == 1, subtract: true, half_carry: x % 16 == 0, ..f })
}

/// ADD HL,rr.
pub fn add16(hl: u16, v: u16, f: FlagsRegister) -> (r: (u16, FlagsRegister))
    ensures
        r == add16_result(hl, v, f),
{
    let sum: u32 = hl as u32 + v as u32;
    let result = (sum % 65536) as u16;
    let half = (hl % 4096) as u32 + (v % 4096) as u32 > 4095;
    (result, FlagsRegister { subtract: false, half_carry: half, carry: sum > 65535, ..f })
}

/// An address moved by a signed offset byte.
pub fn add_offset(base: u16, e: u8) -> (r: u16)
    ensures
        r == offset_address(base, e),
{
    if e < 128 {
        base.wrapping_add(e as u16)
    } else {
        base.wrapping_sub(256 - e as u16)
    }
}

/// ADD SP,e and LD HL,SP+e.
pub fn add_sp(sp: u16, e: u8) -> (r: (u16, FlagsRegister))
    ensures
        r == add_sp_result(sp, e),
{
    let result = add_offset(sp, e);
    let half = (sp % 16) + (e % 16) as u16 > 15;
    let carry = (sp % 256) + e as u16 > 255;
    (result, FlagsRegister { zero: false, subtract: false, half_carry: half, carry })
}

/// DAA.
pub fn daa(a: u8, f: FlagsRegister) -> (r: (u8, FlagsRegister))
    ensures
        r == daa_result(a, f),
{
    let mut v = a;
    let mut carry = f.carry;
    if !f.subtract {
        if f.carry || v > 0x99 {
            v = if v >= 0xA0 { v - 0xA0 } else { v + 0x60 };
            carry = true;
        }
        if f.half_carry || v % 16 > 0x09 {
            v = if v >= 0xFA { v - 0xFA } else { v + 0x06 };
        }
    } else {
        if f.carry {
            v = if v >= 0x60 { v - 0x60 } else { v + 0xA0 };
        }
        if f.half_carry {
            v = if v >= 0x06 { v - 0x06 } else { v + 0xFA };
        }
    }
    (v, FlagsRegister { zero: v == 0, half_carry: false, carry, ..f })
}

/// RLC r: value and carry out.
pub fn rlc8(x: u8) -> (r: (u8, bool))
    ensures
        r.0 == rlc_value(x),
        r.1 == (x >= 128),
{
    ((x << 1u8) | (x >> 7u8), x >= 128)
}

/// RRC r: value and carry out.
pub fn rrc8(x: u8) -> (r: (u8, bool))
    ensures
        r.0 == rrc_value(x),
        r.1 == (x % 2 == 1),
{
    ((x >> 1u8) | (x << 7u8), x % 2 == 1)
}

/// RL r: value and carry out.
pub fn rl8(x: u8, carry: bool) -> (r: (u8, bool))
    ensures
        r.0 == rl_value(x, carry),
        r.1 == (x >= 128),
{
    ((x << 1u8) | (if carry { 1u8 } else { 0u8 }), x >= 128)
}

/// RR r: value and carry out.
pub fn rr8(x: u8, carry: bool) -> (r: (u8, bool))
    ensures
        r.0 == rr_value(x, carry),
        r.1 == (x % 2 == 1),
{
    ((x >> 1u8) | (if carry { 0x80u8 } else { 0u8 }), x % 2 == 1)
}

/// SLA r: value and carry out.
pub fn sla8(x: u8) -> (r: (u8, bool))
    ensures
        r.0 == ((x * 2) % 256) as u8,
        r.1 == (x >= 128),
{
    ((x % 128) * 2, x >= 128)
}

/// SRA r: value and carry out.
pub fn sra8(x: u8) -> (r: (u8, bool))
    ensures
        r.0 == sra_value(x),
        r.1 == (x % 2 == 1),
{
    ((x & 0x80u8) | (x >> 1u8), x % 2 == 1)
}

/// SWAP r.
pub fn swap8(x: u8) -> (r: u8)
    ensures
        r == swap_value(x),
{
    (x >> 4u8) | (x << 4u8)
}

/// SRL r: value and carry out.
pub fn srl8(x: u8) -> (r: (u8, bool))
    ensures
        r.0 == x / 2,
        r.1 == (x % 2 == 1),
{
    (x / 2, x % 2 == 1)
}

/// BIT b,r: Z is set when the bit is clear; H set, N clear, C kept.
pub fn bit8(bit: u8, x: u8, f: FlagsRegister) -> (r: FlagsRegister)
    requires
        bit < 8,
    ensures
        r == (FlagsRegister { zero: x & (1u8 << bit) == 0, subtract: false, half_carry: true, ..f }),
{
    FlagsRegister { zero: x & (1u8 << bit) == 0, subtract: false, half_carry: true, ..f }
}

/// Subtracting what was added gives back the first operand, and adding back what was subtracted too.
pub proof fn lemma_add_then_sub(a: u8, v: u8)
    ensures
        sub_value(add_value(a, v, false), v, false) == a,
        add_value(sub_value(a, v, false), v, false) == a,
{
}

/// A value minus itself is zero, with Z and N set and no borrow.
pub proof fn lemma_sub_self(a: u8)
    ensures
        sub_value(a, a, false) == 0,
        sub_flags(a, a, false) == (FlagsRegister { zero: true, subtract: true, half_carry: false, carry: false }),
{
}

/// Comparing equal values sets Z; a smaller A sets C.
pub proof fn lemma_compare(a: u8, v: u8)
    ensures
        sub_flags(a, v, false).zero <==> a == v,
        sub_flags(a, v, false).carry <==> a < v,
{
}

/// Whether both nibbles of a byte are decimal digits.
pub open spec fn is_bcd(x: u8) -> bool {
    x % 16 <= 9 && x / 16 <= 9
}

/// The number from 0 to 99 that a packed BCD byte holds.
pub open spec fn bcd_value(x: u8) -> int {
    (x / 16) * 10 + x % 16
}

/// The packed BCD byte of a number from 0 to 99.
pub open spec fn bcd_byte(n: int) -> u8 {
    ((n / 10) * 16 + n % 10) as u8
}

/// DAA after an addition whose high nibbles add up to `x` and low nibbles to `y`.
pub open spec fn daa_add_case(x: int, y: int) -> bool {
    let sum = 16 * x + y;
    let f = FlagsRegister { zero: sum % 256 == 0, subtract: false, half_carry: y > 15, carry: sum > 255 };
    let (r, g) = daa_result((sum % 256) as u8, f);
    r == bcd_byte((10 * x + y) % 100) && g.carry == (10 * x + y >= 100)
}

/// DAA after a subtraction whose high nibbles differ by `x` and low nibbles by `y`.
pub open spec fn daa_sub_case(x: int, y: int) -> bool {
    let diff = 16 * x + y;
    let f = FlagsRegister {
        zero: diff % 256 == 0,
        subtract: true,
        half_carry: y < 0,
        carry: diff < 0,
    };
    let (r, g) = daa_result((diff % 256) as u8, f);
    r == bcd_byte((10 * x + y + 100) % 100) && g.carry == (10 * x + y < 0)
}

/// The digit-sum cases of DAA after an addition.
proof fn lemma_daa_add_cases(x: int, y: int)
    requires
        0 <= x <= 18,
        0 <= y <= 18,
    ensures
        daa_add_case(x, y),
{
    let n = 10 * x + y;
    let sum = 16 * x + y;
    if y <= 9 {
        if x <= 9 {
            assert(sum % 256 == sum);
            assert(n % 100 == n && n / 10 == x && n % 10 == y);
        } else if x <= 15 {
            assert(sum % 256 == sum);
            assert(n % 100 == n - 100 && (n - 100) / 10 == x - 10 && (n - 100) % 10 == y);
            assert((sum + 0x60) % 256 == 16 * (x - 10) + y);
        } else {
            assert(sum % 256 == sum - 256);
            assert(n % 100 == n - 100 && (n - 100) / 10 == x - 10 && (n - 100) % 10 == y);
            assert((sum - 256 + 0x60) % 256 == 16 * (x - 10) + y);
        }
    } else if y <= 15 {
        if x <= 8 {
            assert(sum % 256 == sum && sum % 16 == y);
            assert(n % 100 == n && n / 10 == x + 1 && n % 10 == y - 10);
        } else if x == 9 {
            assert(sum % 256 == sum);
            assert(n % 100 == n - 100 && (n - 100) / 10 == 0 && (n - 100) % 10 == y - 10);
            assert((sum + 0x60) % 256 == 240 + y && (240 + y) % 16 == y);
        } else if x <= 15 {
            assert(sum % 256 == sum);
            assert(n % 100 == n - 100 && (n - 100) / 10 == x - 9 && (n - 100) % 10 == y - 10);
            assert((sum + 0x60) % 256 == 16 * (x - 10) + y);
            assert((16 * (x - 10) + y) % 16 == y);
        } else {
            assert(sum % 256 == sum - 256);
            assert(n % 100 == n - 100 && (n - 100) / 10 == x - 9 && (n - 100) % 10 == y - 10);
            assert((sum - 256 + 0x60) % 256 == 16 * (x - 10) + y);
            assert((16 * (x - 10) + y) % 16 == y);
        }
    } else {
        if x <= 8 {
            assert(sum % 256 == sum && sum % 16 == y - 16);
            assert(n % 100 == n && n / 10 == x + 1 && n % 10 == y - 10);
        } else if x <= 14 {
            assert(sum % 256 == sum);
            assert(n % 100 == n - 100 && (n - 100) / 10 == x - 9 && (n - 100) % 10 == y - 10);
            assert((sum + 0x60) % 256 == 16 * (x - 10) + y);
        } else {
            assert(sum % 256 == sum - 256);
            assert(n % 100 == n - 100 && (n - 100) / 10 == x - 9 && (n - 100) % 10 == y - 10);
            assert((sum - 256 + 0x60) % 256 == 16 * (x - 10) + y);
        }
    }
}

/// The digit-difference cases of DAA after a subtraction.
proof fn lemma_daa_sub_cases(x: int, y: int)
    requires
        -9 <= x <= 9,
        -9 <= y <= 9,
    ensures
        daa_sub_case(x, y),
{
    let n = 10 * x + y;
    let diff = 16 * x + y;
    if y >= 0 {
        if x >= 0 {
            assert(diff % 256 == diff);
            assert((n + 100) % 100 == n && n / 10 == x && n % 10 == y);
        } else {
            assert(diff % 256 == diff + 256);
            assert((n + 100) % 100 == n + 100 && (n + 100) / 10 == x + 10 && (n + 100) % 10 == y);
            assert((diff + 256 - 0x60) % 256 == 16 * (x + 10) + y);
        }
    } else {
        if x >= 1 {
            assert(diff % 256 == diff);
            assert((n + 100) % 100 == n && n / 10 == x - 1 && n % 10 == y + 10);
            assert((diff - 6) % 256 == 16 * (x - 1) + y + 10);
        } else {
            assert(diff % 256 == diff + 256);
            assert((n + 100) % 100 == n + 100 && (n + 100) / 10 == x + 9 && (n + 100) % 10 == y + 10);
            assert((diff + 256 - 0x60) % 256 == diff + 160);
            assert((diff + 160 - 6) % 256 == 16 * (x + 9) + y + 10);
        }
    }
}

/// ADD of two BCD bytes followed by DAA gives the BCD byte of their decimal sum modulo 100,
/// with C set exactly when the sum reaches 100.
pub proof fn lemma_daa_after_add(a: u8, b: u8)
    requires
        is_bcd(a),
        is_bcd(b),
    ensures
        daa_result(add_value(a, b, false), add_flags(a, b, false)).0 == bcd_byte(
            (bcd_value(a) + bcd_value(b)) % 100,
        ),
        daa_result(add_value(a, b, false), add_flags(a, b, false)).1.carry == (bcd_value(a) + bcd_value(b)
            >= 100),
{
    let x = a / 16 + b / 16;
    let y = a % 16 + b % 16;
    assert(a + b == 16 * x + y);
    lemma_daa_add_cases(x, y);
    assert(add_value(a, b, false) == ((16 * x + y) % 256) as u8);
    assert(add_flags(a, b, false) == FlagsRegister {
        zero: (16 * x + y) % 256 == 0,
        subtract: false,
        half_carry: y > 15,
        carry: 16 * x + y > 255,
    });
}

/// SUB of two BCD bytes followed by DAA gives the BCD byte of their decimal difference modulo
/// 100, with C set exactly when the subtrahend is the larger.
pub proof fn lemma_daa_after_sub(a: u8, b: u8)
    requires
        is_bcd(a),
        is_bcd(b),
    ensures
        daa_result(sub_value(a, b, false), sub_flags(a, b, false)).0 == bcd_byte(
            (bcd_value(a) - bcd_value(b) + 100) % 100,
        ),
        daa_result(sub_value(a, b, false), sub_flags(a, b, false)).1.carry == (bcd_value(a) < bcd_value(b)),
{
    let x = a / 16 - b / 16;
    let y = a % 16 - b % 16;
    assert(a - b == 16 * x + y);
    lemma_daa_sub_cases(x, y);
    assert(sub_value(a, b, false) == ((16 * x + y) % 256) as u8);
    assert(sub_flags(a, b, false) == FlagsRegister {
        zero: (16 * x + y) % 256 == 0,
        subtract: true,
        half_carry: y < 0,
        carry: 16 * x + y < 0,
    });
}

} // verus!
