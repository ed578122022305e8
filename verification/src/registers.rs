use vstd::prelude::*;

verus! {

/// The four condition flags of the F register.
#[derive(Debug, Clone, Copy, PartialEq, Eq, Structural)]
pub struct FlagsRegister {
    pub zero: bool,
    pub subtract: bool,
    pub half_carry: bool,
    pub carry: bool,
}

/// Names one of the four condition flags.
#[derive(Debug, Clone, Copy, PartialEq, Eq, Structural)]
pub enum Flag {
    Z,
    N,
    H,
    C,
}

/// The F register byte: Z in bit 7, N in bit 6, H in bit 5, C in bit 4, the low nibble clear.
pub open spec fn flags_byte(f: FlagsRegister) -> u8 {
    ((if f.zero { 0x80u8 } else { 0u8 }) | (if f.subtract { 0x40u8 } else { 0u8 }) | (if f.half_carry {
        0x20u8
    } else {
        0u8
    }) | (if f.carry { 0x10u8 } else { 0u8 })) as u8
}

/// The flags that the top nibble of a byte encodes.
pub open spec fn flags_of_byte(b: u8) -> FlagsRegister {
    FlagsRegister {
        zero: b & 0x80 != 0,
        subtract: b & 0x40 != 0,
        half_carry: b & 0x20 != 0,
        carry: b & 0x10 != 0,
    }
}

impl FlagsRegister {
    /// The value of one flag.
    pub open spec fn flag(self, flag: Flag) -> bool {
        match flag {
            Flag::Z => self.zero,
            Flag::N => self.subtract,
            Flag::H => self.half_carry,
            Flag::C => self.carry,
        }
    }

    /// The flags with one flag set to `value`.
    pub open spec fn with_flag(self, flag: Flag, value: bool) -> FlagsRegister {
        match flag {
            Flag::Z => FlagsRegister { zero: value, ..self },
            Flag::N => FlagsRegister { subtract: value, ..self },
            Flag::H => FlagsRegister { half_carry: value, ..self },
            Flag::C => FlagsRegister { carry: value, ..self },
        }
    }

    /// The flags after power-on: Z, H and C set (F = 0xB0).
    pub fn new() -> (r: Self)
        ensures
            r == (FlagsRegister { zero: true, subtract: false, half_carry: true, carry: true }),
    {
        FlagsRegister { zero: true, subtract: false, half_carry: true, carry: true }
    }

    /// Sets one flag to `value`, leaving the others.
    pub fn set_flag(&mut self, flag: Flag, value: bool)
        ensures
            *final(self) == old(self).with_flag(flag, value),
    {
        match flag {
            Flag::Z => self.zero = value,
            Flag::N => self.subtract = value,
            Flag::H => self.half_carry = value,
            Flag::C => self.carry = value,
        }
    }

    /// The value of one flag.
    pub fn get_flag(&self, flag: Flag) -> (r: bool)
        ensures
            r == self.flag(flag),
    {
        match flag {
            Flag::Z => self.zero,
            Flag::N => self.subtract,
            Flag::H => self.half_carry,
            Flag::C => self.carry,
        }
    }

    /// Encodes the flags as the F register byte.
    pub fn to_byte(&self) -> (r: u8)
        ensures
            r == flags_byte(*self),
    {
        let z: u8 = if self.zero { 0x80 } else { 0 };
        let n: u8 = if self.subtract { 0x40 } else { 0 };
        let h: u8 = if self.half_carry { 0x20 } else { 0 };
        let c: u8 = if self.carry { 0x10 } else { 0 };
        z | n | h | c
    }

    /// Decodes the top nibble of a byte; the low nibble is ignored.
    pub fn from_byte(byte: u8) -> (r: Self)
        ensures
            r == flags_of_byte(byte),
    {
        FlagsRegister {
            zero: byte & 0x80 != 0,
            subtract: byte & 0x40 != 0,
            half_carry: byte & 0x20 != 0,
            carry: byte & 0x10 != 0,
        }
    }
}

impl From<FlagsRegister> for u8 {
    fn from(flags: FlagsRegister) -> (r: u8) {
        flags.to_byte()
    }
}

impl vstd::std_specs::convert::FromSpecImpl<FlagsRegister> for u8 {
    open spec fn obeys_from_spec() -> bool {
        true
    }

    open spec fn from_spec(v: FlagsRegister) -> u8 {
        flags_byte(v)
    }
}

impl From<u8> for FlagsRegister {
    fn from(byte: u8) -> (r: FlagsRegister) {
        FlagsRegister::from_byte(byte)
    }
}

impl vstd::std_specs::convert::FromSpecImpl<u8> for FlagsRegister {
    open spec fn obeys_from_spec() -> bool {
        true
    }

    open spec fn from_spec(v: u8) -> FlagsRegister {
        flags_of_byte(v)
    }
}

/// The 16-bit value of a high and a low byte.
pub open spec fn pair(high: u8, low: u8) -> u16 {
    (high as int * 256 + low as int) as u16
}

/// The high byte of a 16-bit value.
pub open spec fn high_byte(v: u16) -> u8 {
    (v as int / 256) as u8
}

/// The low byte of a 16-bit value.
pub open spec fn low_byte(v: u16) -> u8 {
    (v as int % 256) as u8
}

/// Builds a 16-bit value from its high and low bytes.
pub fn make_pair(high: u8, low: u8) -> (r: u16)
    ensures
        r == pair(high, low),
{
    high as u16 * 256 + low as u16
}

/// Splits a 16-bit value into its high and low bytes.
pub fn split_pair(v: u16) -> (r: (u8, u8))
    ensures
        r.0 == high_byte(v),
        r.1 == low_byte(v),
        pair(r.0, r.1) == v,
{
    ((v / 256) as u8, (v % 256) as u8)
}

/// The eight-bit registers of the CPU; F holds the condition flags.
#[derive(Debug, Clone, Copy, PartialEq, Eq, Structural)]
pub struct Registers {
    pub a: u8,
    pub b: u8,
    pub c: u8,
    pub d: u8,
    pub e: u8,
    pub f: FlagsRegister,
    pub h: u8,
    pub l: u8,
}

impl Registers {
    pub open spec fn af(self) -> u16 {
        pair(self.a, flags_byte(self.f))
    }

    pub open spec fn bc(self) -> u16 {
        pair(self.b, self.c)
    }

    pub open spec fn de(self) -> u16 {
        pair(self.d, self.e)
    }

    pub open spec fn hl(self) -> u16 {
        pair(self.h, self.l)
    }

    pub open spec fn with_af(self, v: u16) -> Registers {
        Registers { a: high_byte(v), f: flags_of_byte(low_byte(v)), ..self }
    }

    pub open spec fn with_bc(self, v: u16) -> Registers {
        Registers { b: high_byte(v), c: low_byte(v), ..self }
    }

    pub open spec fn with_de(self, v: u16) -> Registers {
        Registers { d: high_byte(v), e: low_byte(v), ..self }
    }

    pub open spec fn with_hl(self, v: u16) -> Registers {
        Registers { h: high_byte(v), l: low_byte(v), ..self }
    }

    /// The registers after the boot ROM has run on a DMG: AF=01B0 BC=0013 DE=00D8 HL=014D.
    pub fn new() -> (r: Self)
        ensures
            r.a == 0x01 && r.b == 0x00 && r.c == 0x13 && r.d == 0x00 && r.e == 0xD8 && r.h == 0x01
                && r.l == 0x4D,
            r.f == (FlagsRegister { zero: true, subtract: false, half_carry: true, carry: true }),
    {
        Registers {
            a: 0x01,
            b: 0x00,
            c: 0x13,
            d: 0x00,
            e: 0xD8,
            f: FlagsRegister::new(),
            h: 0x01,
            l: 0x4D,
        }
    }

    pub fn get_af(&self) -> (r: u16)
        ensures
            r == self.af(),
    {
        make_pair(self.a, self.f.to_byte())
    }

    pub fn get_bc(&self) -> (r: u16)
        ensures
            r == self.bc(),
    {
        make_pair(self.b, self.c)
    }

    pub fn get_de(&self) -> (r: u16)
        ensures
            r == self.de(),
    {
        make_pair(self.d, self.e)
    }

    pub fn get_hl(&self) -> (r: u16)
        ensures
            r == self.hl(),
    {
        make_pair(self.h, self.l)
    }

    /// Sets A and F; the low nibble of F is dropped.
    pub fn set_af(&mut self, value: u16)
        ensures
            *final(self) == old(self).with_af(value),
    {
        let (h, l) = split_pair(value);
        self.a = h;
        self.f = FlagsRegister::from_byte(l);
    }

    pub fn set_bc(&mut self, value: u16)
        ensures
            *final(self) == old(self).with_bc(value),
    {
        let (h, l) = split_pair(value);
        self.b = h;
        self.c = l;
    }

    pub fn set_de(&mut self, value: u16)
        ensures
            *final(self) == old(self).with_de(value),
    {
        let (h, l) = split_pair(value);
        self.d = h;
        self.e = l;
    }

    pub fn set_hl(&mut self, value: u16)
        ensures
            *final(self) == old(self).with_hl(value),
    {
        let (h, l) = split_pair(value);
        self.h = h;
        self.l = l;
    }
}

/// Splitting a pair gives back its bytes, and pairing the bytes of a value gives back the value.
pub proof fn lemma_pair_bytes(high: u8, low: u8, v: u16)
    ensures
        high_byte(pair(high, low)) == high,
        low_byte(pair(high, low)) == low,
        pair(high_byte(v), low_byte(v)) == v,
{
}

/// Decoding the F byte of a set of flags gives back the flags.
pub proof fn lemma_flags_roundtrip(f: FlagsRegister)
    ensures
        flags_of_byte(flags_byte(f)) == f,
        flags_byte(f) & 0x0F == 0,
{
    lemma_flag_bits(f.zero, f.subtract, f.half_carry, f.carry);
}

proof fn lemma_flag_bits(z: bool, n: bool, h: bool, c: bool)
    by (bit_vector)
    ensures
        ({
            let b = ((if z { 0x80u8 } else { 0u8 }) | (if n { 0x40u8 } else { 0u8 }) | (if h {
                0x20u8
            } else {
                0u8
            }) | (if c { 0x10u8 } else { 0u8 }));
            &&& (b & 0x80 != 0) == z
            &&& (b & 0x40 != 0) == n
            &&& (b & 0x20 != 0) == h
            &&& (b & 0x10 != 0) == c
            &&& b & 0x0F == 0
        }),
{
}

} // verus!
