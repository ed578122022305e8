use vstd::prelude::*;

use crate::apu::Apu;
use crate::interrupts::Interrupt;
use crate::joypad::{Joypad, p1_byte};
use crate::ppu::Ppu;
use crate::timer::Timer;

verus! {

pub const IO_REGISTERS_START: u16 = 0xFF00;
pub const IO_REGISTERS_SIZE: usize = 0x80;
pub const JOYPAD_REGISTER: u16 = 0xFF00;
pub const SERIAL_DATA_REGISTER: u16 = 0xFF01;
pub const SERIAL_CONTROL_REGISTER: u16 = 0xFF02;
pub const DIV_REGISTER: u16 = 0xFF04;
pub const TIMA_REGISTER: u16 = 0xFF05;
pub const TMA_REGISTER: u16 = 0xFF06;
pub const TAC_REGISTER: u16 = 0xFF07;
pub const TIMER_ENABLE_MASK: u8 = 0b100;

/// Whether an address belongs to the audio registers or wave RAM.
pub open spec fn is_apu_address(address: u16) -> bool {
    0xFF10 <= address <= 0xFF26 || 0xFF30 <= address <= 0xFF3F
}

/// Whether an address is routed to the PPU.
pub open spec fn is_ppu_address(address: u16) -> bool {
    0xFF40 <= address <= 0xFF4B
}

/// The I/O registers at 0xFF00-0xFF7F and the devices behind them.
pub struct IO {
    pub io_registers: Vec<u8>,
    pub serial_data: [u8; 2],
    pub ppu: Ppu,
    pub joypad: Joypad,
    pub timer: Timer,
    pub apu: Apu,
}

impl IO {
    pub open spec fn wf(&self) -> bool {
        &&& self.io_registers@.len() == 0x80
        &&& self.ppu.wf()
        &&& self.apu.wf()
        &&& self.joypad.wf()
    }

    /// The value read at an I/O address.
    pub open spec fn register(&self, address: u16) -> u8 {
        if address == 0xFF00 {
            p1_byte(self.joypad)
        } else if address == 0xFF01 {
            self.serial_data@[0]
        } else if address == 0xFF02 {
            self.serial_data@[1]
        } else if address == 0xFF04 {
            self.timer.div
        } else if address == 0xFF05 {
            self.timer.tima
        } else if address == 0xFF06 {
            self.timer.tma
        } else if address == 0xFF07 {
            if self.timer.enabled {
                (self.timer.tac | 0x04u8) as u8
            } else {
                self.timer.tac
            }
        } else if is_apu_address(address) {
            self.apu.register(address)
        } else if is_ppu_address(address) {
            self.ppu.register(address)
        } else {
            self.io_registers@[address - 0xFF00]
        }
    }

    /// Whether `self` is the I/O block after `value` is written at `address`, with the interrupt
    /// that the write requests.
    pub open spec fn written(&self, old: &IO, address: u16, value: u8, interrupt: Option<Interrupt>) -> bool {
        if address == 0xFF00 {
            &&& *self == IO {
                joypad: Joypad { select_buttons: value & 0x20 == 0, select_dpad: value & 0x10 == 0, ..old.joypad },
                ..*old
            }
            &&& interrupt is None
        } else if address == 0xFF01 || address == 0xFF02 {
            &&& *self == IO { serial_data: self.serial_data, ..*old }
            &&& self.serial_data@ == old.serial_data@.update(if address == 0xFF01 { 0int } else { 1int }, value)
            &&& interrupt is None
        } else if address == 0xFF04 {
            *self == IO { timer: old.timer.div_reset(), ..*old } && interrupt is None
        } else if address == 0xFF05 {
            *self == IO { timer: old.timer.tima_written(value), ..*old } && interrupt is None
        } else if address == 0xFF06 {
            *self == IO { timer: old.timer.tma_written(value), ..*old } && interrupt is None
        } else if address == 0xFF07 {
            let (t, overflow) = old.timer.tac_written(value);
            &&& *self == IO { timer: t, ..*old }
            &&& interrupt == (if overflow { Some(Interrupt::TIMER) } else { None })
        } else if is_apu_address(address) {
            *self == IO { apu: self.apu, ..*old } && self.apu.written(&old.apu, address, value) && interrupt is None
        } else if is_ppu_address(address) {
            *self == IO { ppu: self.ppu, ..*old } && self.ppu.reg_written(&old.ppu, address, value) && interrupt is None
        } else {
            &&& *self == IO { io_registers: self.io_registers, ..*old }
            &&& self.io_registers@ == old.io_registers@.update(address - 0xFF00, value)
            &&& interrupt is None
        }
    }

    /// The I/O block at power-on.
    pub fn new() -> (r: IO)
        ensures
            r.wf(),
            r.io_registers@ == Seq::new(0x80, |i: int| 0u8),
            r.serial_data@ == seq![0u8, 0u8],
            r.ppu.mode == 2 && r.ppu.lcdc == 0x91 && r.ppu.stat == 0x85 && r.ppu.ly == 0,
            r.ppu.line_ticks == 0 && r.ppu.current_frame == 0,
            r.timer.div == 0 && r.timer.tima == 0 && r.timer.tma == 0 && r.timer.tac == 0 && !r.timer.enabled,
    {
        let serial_data = [0u8; 2];
        assert(serial_data@ =~= seq![0u8, 0u8]);
        IO {
            io_registers: crate::mbc::zeroed(IO_REGISTERS_SIZE),
            serial_data,
            ppu: Ppu::new(),
            joypad: Joypad::new(),
            timer: Timer::new(),
            apu: Apu::new(),
        }
    }

    /// Reads an I/O register.
    pub fn read(&self, address: u16) -> (r: u8)
        requires
            self.wf(),
            0xFF00 <= address <= 0xFF7F,
        ensures
            r == self.register(address),
    {
        if address == JOYPAD_REGISTER {
            u8::from(self.joypad)
        } else if address == SERIAL_DATA_REGISTER {
            self.serial_data[0]
        } else if address == SERIAL_CONTROL_REGISTER {
            self.serial_data[1]
        } else if address == DIV_REGISTER {
            self.timer.div
        } else if address == TIMA_REGISTER {
            self.timer.tima
        } else if address == TMA_REGISTER {
            self.timer.tma
        } else if address == TAC_REGISTER {
            let mut value = self.timer.tac;
            if self.timer.enabled {
                value = value | TIMER_ENABLE_MASK;
            }
            value
        } else if (0xFF10 <= address && address <= 0xFF26) || (0xFF30 <= address && address <= 0xFF3F) {
            self.apu.read(address)
        } else if 0xFF40 <= address && address <= 0xFF4B {
            self.ppu.read(address)
        } else {
            self.io_registers[(address - IO_REGISTERS_START) as usize]
        }
    }

    /// Writes an I/O register and gives the interrupt that the write requests (a TIMA overflow
    /// caused by a TAC write). The DMA register 0xFF46 is not handled here.
    pub fn write(&mut self, address: u16, value: u8) -> (r: Option<Interrupt>)
        requires
            old(self).wf(),
            0xFF00 <= address <= 0xFF7F,
            address != 0xFF46,
        ensures
            final(self).written(old(self), address, value, r),
            final(self).wf(),
    {
        if address == JOYPAD_REGISTER {
            self.joypad.set_selection(value);
        } else if address == SERIAL_DATA_REGISTER {
            self.serial_data[0] = value;
        } else if address == SERIAL_CONTROL_REGISTER {
            self.serial_data[1] = value;
        } else if address == DIV_REGISTER {
            self.timer.reset_div();
        } else if address == TIMA_REGISTER {
            self.timer.write_tima(value);
        } else if address == TMA_REGISTER {
            self.timer.write_tma(value);
        } else if address == TAC_REGISTER {
            if self.timer.set_tac(value) {
                return Some(Interrupt::TIMER);
            }
        } else if (0xFF10 <= address && address <= 0xFF26) || (0xFF30 <= address && address <= 0xFF3F) {
            self.apu.write(address, value);
        } else if 0xFF40 <= address && address <= 0xFF4B {
            self.ppu.write(address, value);
        } else {
            self.io_registers.set((address - IO_REGISTERS_START) as usize, value);
        }
        None
    }
}

} // verus!
