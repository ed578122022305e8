use vstd::prelude::*;

verus! {

pub const BUTTON_SELECT_MASK: u8 = 0x20;
pub const DPAD_SELECT_MASK: u8 = 0x10;
pub const NO_BUTTONS_PRESSED: u8 = 0b1100_0000;
pub const ALL_BUTTONS_PRESSED: u8 = 0b1111;

// Bit of each button in its group (a set bit means released).
pub const START: u8 = 8;
pub const SELECT: u8 = 4;
pub const B: u8 = 2;
pub const A: u8 = 1;
pub const DOWN: u8 = 8;
pub const UP: u8 = 4;
pub const LEFT: u8 = 2;
pub const RIGHT: u8 = 1;

/// The joypad register P1: two selection lines and two groups of four buttons,
/// each button stored as one bit that is clear while the button is held.
#[derive(Debug, Clone, Copy)]
pub struct Joypad {
    pub select_buttons: bool,
    pub select_dpad: bool,
    pub buttons: u8,
    pub dpad: u8,
}

#[derive(Debug, Clone, Copy, PartialEq, Eq, Structural)]
pub enum Button {
    A,
    B,
    Start,
    Select,
    Up,
    Down,
    Left,
    Right,
}

/// Whether a button belongs to the action group (A, B, Start, Select).
pub open spec fn is_action(button: Button) -> bool {
    button is A || button is B || button is Start || button is Select
}

/// The bit of a button within its group.
pub open spec fn button_bit(button: Button) -> u8 {
    match button {
        Button::Start => 8,
        Button::Select => 4,
        Button::B => 2,
        Button::A => 1,
        Button::Down => 8,
        Button::Up => 4,
        Button::Left => 2,
        Button::Right => 1,
    }
}

/// The byte that the CPU reads from P1 for a joypad state.
pub open spec fn p1_byte(j: Joypad) -> u8 {
    let sel: u8 = (0xC0u8 | (if j.select_buttons { 0x20u8 } else { 0u8 }) | (if j.select_dpad {
        0x10u8
    } else {
        0u8
    })) as u8;
    if !j.select_dpad {
        (sel | j.buttons) as u8
    } else if !j.select_buttons {
        (sel | j.dpad) as u8
    } else {
        (sel | 0x0F) as u8
    }
}

impl Joypad {
    /// Buttons and directions are stored as four-bit groups.
    pub open spec fn wf(&self) -> bool {
        self.buttons <= 0x0F && self.dpad <= 0x0F
    }

    /// The group byte of a button.
    pub open spec fn group(self, button: Button) -> u8 {
        if is_action(button) {
            self.buttons
        } else {
            self.dpad
        }
    }

    /// Whether the group of a button is read as selected.
    pub open spec fn group_selected(self, button: Button) -> bool {
        if is_action(button) {
            !self.select_buttons
        } else {
            !self.select_dpad
        }
    }

    /// The state with the bit of `button` set to `released`.
    pub open spec fn with_button(self, button: Button, released: bool) -> Joypad {
        let g = self.group(button);
        let ng = if released {
            (g | button_bit(button)) as u8
        } else {
            (g & !button_bit(button)) as u8
        };
        if is_action(button) {
            Joypad { buttons: ng, ..self }
        } else {
            Joypad { dpad: ng, ..self }
        }
    }

    /// Both groups selected and every button released.
    pub fn new() -> (r: Joypad)
        ensures
            r.select_buttons && r.select_dpad && r.buttons == 0x0F && r.dpad == 0x0F,
            r.wf(),
    {
        Joypad { select_buttons: true, select_dpad: true, buttons: ALL_BUTTONS_PRESSED, dpad: ALL_BUTTONS_PRESSED }
    }

    /// Whether a button reads as held: only when the flag of its group is clear and its bit is clear.
    pub fn is_pressed(&self, button: Button) -> (r: bool)
        ensures
            r == (self.group_selected(button) && self.group(button) & button_bit(button) == 0),
    {
        match button {
            Button::Start | Button::Select | Button::A | Button::B => {
                if !self.select_buttons {
                    let flag = Self::flag_of(button);
                    let g = self.buttons;
                    assert((flag == 1 || flag == 2 || flag == 4 || flag == 8) ==> ((g & flag != flag) == (g & flag == 0))) by (bit_vector);
                    g & flag != flag
                } else {
                    false
                }
            },
            Button::Up | Button::Down | Button::Left | Button::Right => {
                if !self.select_dpad {
                    let flag = Self::flag_of(button);
                    let g = self.dpad;
                    assert((flag == 1 || flag == 2 || flag == 4 || flag == 8) ==> ((g & flag != flag) == (g & flag == 0))) by (bit_vector);
                    g & flag != flag
                } else {
                    false
                }
            },
        }
    }

    /// The bit of a button in its group.
    pub fn flag_of(button: Button) -> (r: u8)
        ensures
            r == button_bit(button),
    {
        match button {
            Button::Start => START,
            Button::Select => SELECT,
            Button::A => A,
            Button::B => B,
            Button::Up => UP,
            Button::Down => DOWN,
            Button::Left => LEFT,
            Button::Right => RIGHT,
        }
    }

    /// Records a button as held (clears its bit).
    pub fn button_pressed(&mut self, button: Button)
        ensures
            *final(self) == old(self).with_button(button, false),
            old(self).wf() ==> final(self).wf(),
    {
        let flag = Self::flag_of(button);
        match button {
            Button::Start | Button::Select | Button::A | Button::B => {
                self.buttons = self.buttons & !flag;
            },
            _ => {
                self.dpad = self.dpad & !flag;
            },
        }
        proof {
            let (b, d, f) = (old(self).buttons, old(self).dpad, flag);
            assert(b <= 0x0F ==> b & !f <= 0x0F) by (bit_vector);
            assert(d <= 0x0F ==> d & !f <= 0x0F) by (bit_vector);
        }
    }

    /// Records a button as released (sets its bit).
    pub fn button_released(&mut self, button: Button)
        ensures
            *final(self) == old(self).with_button(button, true),
            old(self).wf() ==> final(self).wf(),
    {
        let flag = Self::flag_of(button);
        match button {
            Button::Start | Button::Select | Button::A | Button::B => {
                self.buttons = self.buttons | flag;
            },
            _ => {
                self.dpad = self.dpad | flag;
            },
        }
        proof {
            let (b, d, f) = (old(self).buttons, old(self).dpad, flag);
            assert(b <= 0x0F && f <= 8 ==> b | f <= 0x0F) by (bit_vector);
            assert(d <= 0x0F && f <= 8 ==> d | f <= 0x0F) by (bit_vector);
        }
    }

    /// Sets the selection lines from a byte written to P1 (bit 5 buttons, bit 4 directions; 0 selects).
    pub fn set_selection(&mut self, byte: u8)
        ensures
            *final(self) == (Joypad {
                select_buttons: byte & 0x20 == 0,
                select_dpad: byte & 0x10 == 0,
                ..*old(self)
            }),
    {
        self.select_buttons = byte & BUTTON_SELECT_MASK == 0;
        self.select_dpad = byte & DPAD_SELECT_MASK == 0;
    }

    /// The byte read from P1.
    pub fn to_byte(&self) -> (r: u8)
        ensures
            r == p1_byte(*self),
    {
        let mut result = NO_BUTTONS_PRESSED;
        if !self.select_buttons {
            result = result & !BUTTON_SELECT_MASK;
        } else {
            result = result | BUTTON_SELECT_MASK;
        }
        if !self.select_dpad {
            result = result & !DPAD_SELECT_MASK;
        } else {
            result = result | DPAD_SELECT_MASK;
        }
        proof {
            let (sb, sd) = (self.select_buttons, self.select_dpad);
            assert(result == (0xC0u8 | (if sb { 0x20u8 } else { 0u8 }) | (if sd { 0x10u8 } else { 0u8 })))
                by (bit_vector)
                requires
                    result == (if sd { (if sb { 0xC0u8 | 0x20u8 } else { 0xC0u8 & !0x20u8 }) | 0x10u8 } else { (if sb { 0xC0u8 | 0x20u8 } else { 0xC0u8 & !0x20u8 }) & !0x10u8 }),
            ;
        }
        if !self.select_dpad {
            result = result | self.buttons;
        } else if !self.select_buttons {
            result = result | self.dpad;
        } else {
            result = result | ALL_BUTTONS_PRESSED;
        }
        result
    }

    /// The joypad state that a byte written to P1 selects, with every button released.
    pub fn from_byte(byte: u8) -> (r: Joypad)
        ensures
            r == (Joypad {
                select_buttons: byte & 0x20 == 0,
                select_dpad: byte & 0x10 == 0,
                buttons: 0x0F,
                dpad: 0x0F,
            }),
    {
        let mut joypad = Joypad::new();
        joypad.select_buttons = byte & BUTTON_SELECT_MASK == 0;
        joypad.select_dpad = byte & DPAD_SELECT_MASK == 0;
        joypad
    }
}

impl From<Joypad> for u8 {
    fn from(joypad: Joypad) -> (r: u8) {
        joypad.to_byte()
    }
}

impl vstd::std_specs::convert::FromSpecImpl<Joypad> for u8 {
    open spec fn obeys_from_spec() -> bool {
        true
    }

    open spec fn from_spec(v: Joypad) -> u8 {
        p1_byte(v)
    }
}

/// A held button reads as held while its group is selected.
pub proof fn lemma_pressed_reads_held(j: Joypad, button: Button)
    requires
        j.group_selected(button),
    ensures
        ({
            let k = j.with_button(button, false);
            k.group_selected(button) && k.group(button) & button_bit(button) == 0
        }),
{
    let g = j.group(button);
    let f = button_bit(button);
    assert((g & !f) & f == 0) by (bit_vector);
}

/// A released button never reads as held.
pub proof fn lemma_released_reads_free(j: Joypad, button: Button)
    ensures
        ({
            let k = j.with_button(button, true);
            k.group(button) & button_bit(button) != 0
        }),
{
    let g = j.group(button);
    let f = button_bit(button);
    assert(f != 0 ==> (g | f) & f != 0) by (bit_vector);
}

/// Releasing a button undoes pressing it, when it was released before.
pub proof fn lemma_release_undoes_press(j: Joypad, button: Button)
    requires
        j.group(button) & button_bit(button) != 0,
    ensures
        j.with_button(button, false).with_button(button, true) == j,
{
    let g = j.group(button);
    let f = button_bit(button);
    assert(f == 1 || f == 2 || f == 4 || f == 8);
    assert((f == 1 || f == 2 || f == 4 || f == 8) && g & f != 0 ==> (g & !f) | f == g) by (bit_vector);
}

/// Pressing or releasing a button leaves the other group and the selection lines alone.
pub proof fn lemma_button_changes_own_group(j: Joypad, button: Button, released: bool)
    ensures
        ({
            let k = j.with_button(button, released);
            &&& k.select_buttons == j.select_buttons
            &&& k.select_dpad == j.select_dpad
            &&& is_action(button) ==> k.dpad == j.dpad
            &&& !is_action(button) ==> k.buttons == j.buttons
        }),
{
}

} // verus!
