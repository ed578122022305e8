use vstd::prelude::*;

verus! {

pub const VBLANK_FLAG: u8 = 0x01;
pub const LCD_STAT_FLAG: u8 = 0x02;
pub const TIMER_FLAG: u8 = 0x04;
pub const SERIAL_FLAG: u8 = 0x08;
pub const JOYPAD_FLAG: u8 = 0x10;

/// The five interrupt sources of the DMG, in priority order.
#[derive(Debug, PartialEq, Eq, Structural, Clone, Copy)]
pub enum Interrupt {
    VBLANK,
    LCDSTAT,
    TIMER,
    SERIAL,
    JOYPAD,
}

/// The IF register decoded into one flag per interrupt source.
#[derive(Debug, PartialEq, Eq, Structural, Clone, Copy)]
pub struct InterruptFlags {
    pub vblank: bool,
    pub lcd_stat: bool,
    pub timer: bool,
    pub serial: bool,
    pub joypad: bool,
}

/// The IF bit that belongs to an interrupt source.
pub open spec fn interrupt_mask(i: Interrupt) -> u8 {
    match i {
        Interrupt::VBLANK => 0x01,
        Interrupt::LCDSTAT => 0x02,
        Interrupt::TIMER => 0x04,
        Interrupt::SERIAL => 0x08,
        Interrupt::JOYPAD => 0x10,
    }
}

/// The byte that encodes a set of interrupt flags: bit 0 VBLANK up to bit 4 JOYPAD.
pub open spec fn flags_byte(f: InterruptFlags) -> u8 {
    ((if f.vblank { 0x01u8 } else { 0u8 }) | (if f.lcd_stat { 0x02u8 } else { 0u8 }) | (if f.timer {
        0x04u8
    } else {
        0u8
    }) | (if f.serial { 0x08u8 } else { 0u8 }) | (if f.joypad { 0x10u8 } else { 0u8 })) as u8
}

/// The flags that a byte encodes; bits 5 to 7 are ignored.
pub open spec fn flags_of_byte(b: u8) -> InterruptFlags {
    InterruptFlags {
        vblank: b & 0x01 != 0,
        lcd_stat: b & 0x02 != 0,
        timer: b & 0x04 != 0,
        serial: b & 0x08 != 0,
        joypad: b & 0x10 != 0,
    }
}

/// Whether the flag of an interrupt source is raised.
pub open spec fn flag_of(f: InterruptFlags, i: Interrupt) -> bool {
    match i {
        Interrupt::VBLANK => f.vblank,
        Interrupt::LCDSTAT => f.lcd_stat,
        Interrupt::TIMER => f.timer,
        Interrupt::SERIAL => f.serial,
        Interrupt::JOYPAD => f.joypad,
    }
}

/// The flags with the flag of one interrupt source set to `value`.
pub open spec fn with_flag(f: InterruptFlags, i: Interrupt, value: bool) -> InterruptFlags {
    match i {
        Interrupt::VBLANK => InterruptFlags { vblank: value, ..f },
        Interrupt::LCDSTAT => InterruptFlags { lcd_stat: value, ..f },
        Interrupt::TIMER => InterruptFlags { timer: value, ..f },
        Interrupt::SERIAL => InterruptFlags { serial: value, ..f },
        Interrupt::JOYPAD => InterruptFlags { joypad: value, ..f },
    }
}

impl InterruptFlags {
    /// No interrupt requested.
    pub fn new() -> (r: Self)
        ensures
            !r.vblank && !r.lcd_stat && !r.timer && !r.serial && !r.joypad,
            flags_byte(r) == 0,
    {
        assert((0u8 | 0u8 | 0u8 | 0u8 | 0u8) == 0u8) by (bit_vector);
        InterruptFlags { vblank: false, lcd_stat: false, timer: false, serial: false, joypad: false }
    }

    /// Encodes the flags as the IF byte.
    pub fn to_byte(&self) -> (r: u8)
        ensures
            r == flags_byte(*self),
    {
        let v: u8 = if self.vblank { VBLANK_FLAG } else { 0 };
        let l: u8 = if self.lcd_stat { LCD_STAT_FLAG } else { 0 };
        let t: u8 = if self.timer { TIMER_FLAG } else { 0 };
        let s: u8 = if self.serial { SERIAL_FLAG } else { 0 };
        let j: u8 = if self.joypad { JOYPAD_FLAG } else { 0 };
        v | l | t | s | j
    }

    /// Decodes the IF byte.
    pub fn from_byte(byte: u8) -> (r: Self)
        ensures
            r == flags_of_byte(byte),
    {
        InterruptFlags {
            vblank: byte & VBLANK_FLAG != 0,
            lcd_stat: byte & LCD_STAT_FLAG != 0,
            timer: byte & TIMER_FLAG != 0,
            serial: byte & SERIAL_FLAG != 0,
            joypad: byte & JOYPAD_FLAG != 0,
        }
    }
}

impl Interrupt {
    /// The IF bit of this interrupt source.
    pub fn mask(&self) -> (r: u8)
        ensures
            r == interrupt_mask(*self),
    {
        match self {
            Interrupt::VBLANK => VBLANK_FLAG,
            Interrupt::LCDSTAT => LCD_STAT_FLAG,
            Interrupt::TIMER => TIMER_FLAG,
            Interrupt::SERIAL => SERIAL_FLAG,
            Interrupt::JOYPAD => JOYPAD_FLAG,
        }
    }
}

impl From<Interrupt> for u8 {
    fn from(interrupt: Interrupt) -> (r: u8) {
        interrupt.mask()
    }
}

impl vstd::std_specs::convert::FromSpecImpl<Interrupt> for u8 {
    open spec fn obeys_from_spec() -> bool {
        true
    }

    open spec fn from_spec(v: Interrupt) -> u8 {
        interrupt_mask(v)
    }
}

impl From<InterruptFlags> for u8 {
    fn from(flags: InterruptFlags) -> (r: u8) {
        flags.to_byte()
    }
}

impl vstd::std_specs::convert::FromSpecImpl<InterruptFlags> for u8 {
    open spec fn obeys_from_spec() -> bool {
        true
    }

    open spec fn from_spec(v: InterruptFlags) -> u8 {
        flags_byte(v)
    }
}

impl From<u8> for InterruptFlags {
    fn from(byte: u8) -> (r: InterruptFlags) {
        InterruptFlags::from_byte(byte)
    }
}

impl vstd::std_specs::convert::FromSpecImpl<u8> for InterruptFlags {
    open spec fn obeys_from_spec() -> bool {
        true
    }

    open spec fn from_spec(v: u8) -> InterruptFlags {
        flags_of_byte(v)
    }
}

/// Decoding the byte of a set of flags gives back the same flags.
pub proof fn lemma_flags_roundtrip(f: InterruptFlags)
    ensures
        flags_of_byte(flags_byte(f)) == f,
{
    let (v, l, t, s, j) = (f.vblank, f.lcd_stat, f.timer, f.serial, f.joypad);
    let b = flags_byte(f);
    assert((b & 0x01 != 0 <==> v) && (b & 0x02 != 0 <==> l) && (b & 0x04 != 0 <==> t) && (b & 0x08 != 0
        <==> s) && (b & 0x10 != 0 <==> j)) by (bit_vector)
        requires b == ((if v { 0x01u8 } else { 0u8 }) | (if l { 0x02u8 } else { 0u8 }) | (if t { 0x04u8 } else { 0u8 }) | (if s { 0x08u8 } else { 0u8 }) | (if j { 0x10u8 } else { 0u8 })),
    ;
}

/// Encoding the flags that a byte decodes to keeps exactly the five interrupt bits of it.
pub proof fn lemma_byte_roundtrip(b: u8)
    ensures
        flags_byte(flags_of_byte(b)) == b & 0x1F,
{
    let f = flags_of_byte(b);
    assert(((if b & 0x01 != 0 { 0x01u8 } else { 0u8 }) | (if b & 0x02 != 0 { 0x02u8 } else { 0u8 }) | (if b & 0x04 != 0 { 0x04u8 } else { 0u8 }) | (if b & 0x08 != 0 { 0x08u8 } else { 0u8 }) | (if b & 0x10 != 0 { 0x10u8 } else { 0u8 })) == b & 0x1F) by (bit_vector);
}

/// Raising a request makes its flag read as set and leaves the other flags as they were.
pub proof fn lemma_raise_sets_flag(b: u8, i: Interrupt, other: Interrupt)
    ensures
        flag_of(flags_of_byte(flags_byte(with_flag(flags_of_byte(b), i, true))), i),
        other != i ==> flag_of(flags_of_byte(flags_byte(with_flag(flags_of_byte(b), i, true))), other)
            == flag_of(flags_of_byte(b), other),
{
    lemma_flags_roundtrip(with_flag(flags_of_byte(b), i, true));
}

/// Clearing a request (as servicing it does) makes its flag read as clear and leaves the other
/// flags as they were.
pub proof fn lemma_clear_clears_flag(b: u8, i: Interrupt, other: Interrupt)
    ensures
        !flag_of(flags_of_byte(flags_byte(with_flag(flags_of_byte(b), i, false))), i),
        other != i ==> flag_of(flags_of_byte(flags_byte(with_flag(flags_of_byte(b), i, false))), other)
            == flag_of(flags_of_byte(b), other),
{
    lemma_flags_roundtrip(with_flag(flags_of_byte(b), i, false));
}

} // verus!
