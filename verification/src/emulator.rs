use vstd::prelude::*;

use crate::cpu::{CPU, power_on_cpu, step, performs, check_ok, serviced, ime_latched, ime_cleared, pc_pushed, vector, add16w};
use crate::interrupts::{Interrupt, flags_byte, flags_of_byte, with_flag};
use crate::io::IO;
use crate::joypad::{Button, Joypad};
use crate::mbc::SaveFile;
use crate::memory_bus::{MemoryBus, raised};
use crate::ppu::{Ppu, with_line};
use crate::rom::ROM;

verus! {

pub const BOOT_ROM_START: u16 = 0x0000;
pub const CART_ROM_START: u16 = 0x0100;

/// Why a machine cycle could not complete: a memory access that the hardware model cannot make.
#[derive(Debug, Clone, Copy, PartialEq, Eq, Structural)]
pub enum Fault {
    /// An access of the instruction.
    Instruction,
    /// The PPU line clock would overflow (only while the LCD is on).
    LineClock,
    /// A source byte of the OAM DMA transfer.
    DmaSource,
    /// The stack push of an interrupt.
    InterruptPush,
}

/// The IF byte with every interrupt of `ints` requested, in order.
pub open spec fn raised_all(flags: u8, ints: Seq<Interrupt>) -> u8
    decreases ints.len(),
{
    if ints.len() == 0 {
        flags
    } else {
        raised(raised_all(flags, ints.drop_last()), ints.last())
    }
}

/// The eight buttons in the order the emulator releases them.
pub open spec fn all_buttons() -> Seq<Button> {
    seq![
        Button::A,
        Button::B,
        Button::Start,
        Button::Select,
        Button::Up,
        Button::Down,
        Button::Left,
        Button::Right,
    ]
}

/// The joypad with each button of `buttons` pressed (or released), in order.
pub open spec fn buttons_set(j: Joypad, buttons: Seq<Button>, released: bool) -> Joypad
    decreases buttons.len(),
{
    if buttons.len() == 0 {
        j
    } else {
        buttons_set(j, buttons.drop_last(), released).with_button(buttons.last(), released)
    }
}

/// The bus after the PPU ran `cycles` clocks and its interrupts were requested.
#[verifier::opaque]
pub open spec fn ppu_phase(b: MemoryBus, cycles: u8, new: MemoryBus) -> bool {
    let (p, ints, line) = b.dmg_io.ppu.ticked(cycles);
    &&& new == MemoryBus {
        dmg_io: IO { ppu: new.dmg_io.ppu, ..b.dmg_io },
        interrupt_flags: raised_all(b.interrupt_flags, ints),
        ..b
    }
    &&& new.dmg_io.ppu == Ppu { framebuffer: new.dmg_io.ppu.framebuffer, ..p }
    &&& match line {
        Some(l) => new.dmg_io.ppu.framebuffer@ == with_line(b.dmg_io.ppu.framebuffer@, b.dmg_io.ppu.ly as int, l),
        None => new.dmg_io.ppu.framebuffer@ == b.dmg_io.ppu.framebuffer@,
    }
}

/// The bus after `cycles` clocks of the timer and of the DMA engine.
#[verifier::opaque]
pub open spec fn bus_phase(b: MemoryBus, cycles: u8, new: MemoryBus) -> bool {
    let b1 = b.timer_stepped(cycles);
    let (d, oam) = b1.dma_copied(b1.dma, b1.dmg_io.ppu.oam_ram@, cycles as nat);
    &&& new == MemoryBus {
        dmg_io: IO { ppu: Ppu { oam_ram: new.dmg_io.ppu.oam_ram, ..b1.dmg_io.ppu }, ..b1.dmg_io },
        dma: d,
        ..b1
    }
    &&& new.dmg_io.ppu.oam_ram@ == oam
}

/// The processor and bus after an interrupt check.
#[verifier::opaque]
pub open spec fn interrupt_phase(c: CPU, b: MemoryBus, new_c: CPU, new_b: MemoryBus) -> bool {
    let b1 = ime_latched(b);
    match serviced(b) {
        Some(i) => {
            &&& new_c == CPU { sp: add16w(c.sp, -2), pc: vector(i), ..c }
            &&& exists|mid: MemoryBus|
                #![trigger pc_pushed(ime_cleared(ime_latched(b)), add16w(c.sp, -2), c.pc, mid)]
                pc_pushed(ime_cleared(ime_latched(b)), add16w(c.sp, -2), c.pc, mid) && new_b == (MemoryBus {
                    interrupt_flags: flags_byte(with_flag(flags_of_byte(b1.interrupt_flags), i, false)),
                    ..mid
                })
        },
        None => new_c == c && new_b == b1,
    }
}

/// The bus after a scheduled interrupt enable takes effect (the emulator does this right after
/// each instruction).
pub open spec fn ime_phase(b: MemoryBus) -> MemoryBus {
    ime_latched(b)
}


/// The PPU runs `cycles` clocks and its interrupts are requested.
fn ppu_step(memory_bus: &mut MemoryBus, cycles: u8)
    requires
        old(memory_bus).wf(),
        old(memory_bus).dmg_io.ppu.lcd_enabled() ==> old(memory_bus).dmg_io.ppu.line_ticks + cycles <= 0xFFFF,
    ensures
        final(memory_bus).wf(),
        ppu_phase(*old(memory_bus), cycles, *final(memory_bus)),
{
    proof {
        reveal(ppu_phase);
    }
    let interrupts = memory_bus.dmg_io.ppu.tick(cycles);
    let ghost bt = *memory_bus;
    let mut k: usize = 0;
    while k < interrupts.len()
        invariant
            k <= interrupts@.len(),
            bt.wf(),
            *memory_bus == (MemoryBus {
                interrupt_flags: raised_all(bt.interrupt_flags, interrupts@.take(k as int)),
                ..bt
            }),
        decreases interrupts@.len() - k,
    {
        memory_bus.trigger_interrupt(interrupts[k]);
        k = k + 1;
        assert(interrupts@.take(k as int).drop_last() =~= interrupts@.take((k - 1) as int));
    }
    assert(interrupts@.take(interrupts@.len() as int) =~= interrupts@);
}

/// The timer and the DMA engine run `cycles` clocks.
fn bus_step(memory_bus: &mut MemoryBus, cycles: u8)
    requires
        old(memory_bus).wf(),
        old(memory_bus).dma_reads_ok(old(memory_bus).dma, cycles as nat),
    ensures
        final(memory_bus).wf(),
        bus_phase(*old(memory_bus), cycles, *final(memory_bus)),
{
    proof {
        reveal(bus_phase);
    }
    memory_bus.cycle(cycles);
}

/// The interrupt check.
fn interrupt_step(cpu: &mut CPU, memory_bus: &mut MemoryBus)
    requires
        old(memory_bus).wf(),
        check_ok(*old(cpu), *old(memory_bus)),
    ensures
        final(memory_bus).wf(),
        interrupt_phase(*old(cpu), *old(memory_bus), *final(cpu), *final(memory_bus)),
{
    proof {
        reveal(interrupt_phase);
    }
    cpu.check_interrupts(memory_bus);
}

/// The whole machine: processor, memory bus and the frame counter the front end last saw.
pub struct Emulator {
    pub cpu: CPU,
    pub memory_bus: MemoryBus,
    pub previous_frame: u32,
    pub running: bool,
}

impl Emulator {
    pub open spec fn wf(&self) -> bool {
        self.memory_bus.wf()
    }

    #[verifier::opaque]
    /// One machine cycle through the given intermediate states: the instruction (`c1`, `b1`,
    /// taking `cycles`), the interrupt enable latch and the PPU (`b2`), the timer and DMA (`b3`),
    /// the interrupt check (`c2`, `b4`).
    pub open spec fn cycled_via(
        self,
        c1: CPU,
        b1: MemoryBus,
        cycles: u8,
        b2: MemoryBus,
        b3: MemoryBus,
        c2: CPU,
        b4: MemoryBus,
    ) -> bool {
        &&& performs(step(self.cpu, self.memory_bus), self.memory_bus, c1, b1, cycles)
        &&& ppu_phase(ime_phase(b1), cycles, b2)
        &&& bus_phase(b2, cycles, b3)
        &&& interrupt_phase(c1, b3, c2, b4)
    }

    /// The outcome of one cycle through the given intermediate states: the first access that
    /// cannot be made stops the cycle with its fault where it stands; otherwise the result tells
    /// whether a new frame was completed.
    pub open spec fn outcome(
        self,
        new: Emulator,
        r: Result<bool, Fault>,
        c1: CPU,
        b1: MemoryBus,
        cycles: u8,
        b2: MemoryBus,
        b3: MemoryBus,
        c2: CPU,
        b4: MemoryBus,
    ) -> bool {
        let i2 = ime_phase(b1);
        &&& performs(step(self.cpu, self.memory_bus), self.memory_bus, c1, b1, cycles)
        &&& if i2.dmg_io.ppu.lcd_enabled() && i2.dmg_io.ppu.line_ticks + cycles > 0xFFFF {
            new == Emulator { cpu: c1, memory_bus: i2, ..self } && r == Err::<bool, Fault>(Fault::LineClock)
        } else if !b2.dma_reads_ok(b2.dma, cycles as nat) {
            ppu_phase(i2, cycles, b2) && new == Emulator { cpu: c1, memory_bus: b2, ..self } && r
                == Err::<bool, Fault>(Fault::DmaSource)
        } else if !check_ok(c1, b3) {
            ppu_phase(i2, cycles, b2) && bus_phase(b2, cycles, b3) && new == Emulator {
                cpu: c1,
                memory_bus: b3,
                ..self
            } && r == Err::<bool, Fault>(Fault::InterruptPush)
        } else {
            &&& self.cycled_via(c1, b1, cycles, b2, b3, c2, b4)
            &&& new.cpu == c2 && new.memory_bus == b4 && new.running == self.running
            &&& new.previous_frame == b4.dmg_io.ppu.current_frame
            &&& r == Ok::<bool, Fault>(self.previous_frame != b4.dmg_io.ppu.current_frame)
        }
    }

    /// Whether one cycle can lead from `self` to `new` with result `r`.
    pub open spec fn cycled(self, new: Emulator, r: Result<bool, Fault>) -> bool {
        if !step(self.cpu, self.memory_bus).ok {
            new == self && r == Err::<bool, Fault>(Fault::Instruction)
        } else {
            exists|c1: CPU, b1: MemoryBus, cycles: u8, b2: MemoryBus, b3: MemoryBus, c2: CPU, b4: MemoryBus|
                #![trigger self.outcome(new, r, c1, b1, cycles, b2, b3, c2, b4)]
                self.outcome(new, r, c1, b1, cycles, b2, b3, c2, b4)
        }
    }

    /// A machine over `rom`, starting in the boot ROM when one is given and at 0x0100 otherwise.
    pub fn new(boot_rom: Option<Vec<u8>>, rom: &ROM, saved_ram: Option<Vec<u8>>, saved_rtc: Option<Vec<u8>>) -> (r: Emulator)
        requires
            crate::mbc::mbc_type_of(rom.cartridge_type) is Some,
            rom.rom@.len() > 0,
        ensures
            r.wf(),
            r.cpu == (CPU { pc: if boot_rom is Some { 0x0000u16 } else { 0x0100u16 }, ..power_on_cpu() }),
            r.memory_bus.initial(
                match boot_rom {
                    Some(b) => Some(b@),
                    None => None,
                },
                *rom,
            ),
            forall|a: u16|
                #![trigger r.memory_bus.read_value(a)]
                (a as int) < 0x4000 && (a as int) < rom.rom@.len() && !r.memory_bus.in_boot_rom(a)
                    ==> r.memory_bus.read_value(a) == rom.rom@[a as int],
            r.previous_frame == 0 && r.running,
    {
        let mut cpu = CPU::new();
        cpu.pc = if boot_rom.is_some() { BOOT_ROM_START } else { CART_ROM_START };
        let memory_bus = MemoryBus::new(boot_rom, rom, saved_ram, saved_rtc);
        Emulator { cpu, memory_bus, previous_frame: 0, running: true }
    }

    /// One machine cycle: an instruction, the PPU for the cycles it took (its interrupts are
    /// requested), the timer and the OAM DMA, then the interrupt check.
    pub fn cycle(&mut self) -> (r: Result<bool, Fault>)
        requires
            old(self).wf(),
        ensures
            final(self).wf(),
            old(self).cycled(*final(self), r),
    {
        if !self.cpu.step_ok(&self.memory_bus) {
            return Err(Fault::Instruction);
        }
        let cpu_cycles = self.cpu.cycle(&mut self.memory_bus);
        let ghost c1 = self.cpu;
        let ghost b1 = self.memory_bus;
        if self.memory_bus.enabling_ime {
            self.memory_bus.interrupt_master_enable = true;
            self.memory_bus.enabling_ime = false;
        }
        let ghost i2 = self.memory_bus;
        assert(i2 == ime_phase(b1));
        if self.memory_bus.dmg_io.ppu.lcd_ppu_enabled() && self.memory_bus.dmg_io.ppu.line_ticks as u32
            + cpu_cycles as u32 > 0xFFFF {
            assert(old(self).outcome(*self, Err(Fault::LineClock), c1, b1, cpu_cycles, b1, b1, c1, b1));
            return Err(Fault::LineClock);
        }
        ppu_step(&mut self.memory_bus, cpu_cycles);
        let ghost b2 = self.memory_bus;
        assert(ppu_phase(i2, cpu_cycles, b2));
        if !self.memory_bus.dma_can_read(cpu_cycles) {
            assert(old(self).outcome(*self, Err(Fault::DmaSource), c1, b1, cpu_cycles, b2, b2, c1, b2));
            return Err(Fault::DmaSource);
        }
        bus_step(&mut self.memory_bus, cpu_cycles);
        let ghost b3 = self.memory_bus;
        assert(bus_phase(b2, cpu_cycles, b3));
        if !self.cpu.interrupt_check_ok(&self.memory_bus) {
            assert(old(self).outcome(*self, Err(Fault::InterruptPush), c1, b1, cpu_cycles, b2, b3, c1, b3));
            return Err(Fault::InterruptPush);
        }
        interrupt_step(&mut self.cpu, &mut self.memory_bus);
        let ghost c2 = self.cpu;
        let ghost b4 = self.memory_bus;
        proof {
            reveal(Emulator::cycled_via);
        }
        let frame = self.memory_bus.dmg_io.ppu.current_frame;
        let new_frame = self.previous_frame != frame;
        self.previous_frame = frame;
        assert(old(self).outcome(*self, Ok(new_frame), c1, b1, cpu_cycles, b2, b3, c2, b4));
        Ok(new_frame)
    }
}

impl Emulator {
    /// Sets the joypad from the buttons held now: every button is released, then each button
    /// of `pressed` is pressed; a JOYPAD interrupt is requested when any button is held.
    pub fn process_buttons(&mut self, pressed: &Vec<Button>)
        requires
            old(self).wf(),
        ensures
            final(self).wf(),
            final(self).cpu == old(self).cpu,
            final(self).memory_bus == (MemoryBus {
                dmg_io: IO {
                    joypad: buttons_set(buttons_set(old(self).memory_bus.dmg_io.joypad, all_buttons(), true), pressed@, false),
                    ..old(self).memory_bus.dmg_io
                },
                interrupt_flags: if pressed@.len() > 0 {
                    raised(old(self).memory_bus.interrupt_flags, Interrupt::JOYPAD)
                } else {
                    old(self).memory_bus.interrupt_flags
                },
                ..old(self).memory_bus
            }),
            final(self).previous_frame == old(self).previous_frame,
            final(self).running == old(self).running,
    {
        let mut joypad = self.memory_bus.dmg_io.joypad;
        let select_buttons = joypad.select_buttons;
        let select_dpad = joypad.select_dpad;
        let all = [Button::A, Button::B, Button::Start, Button::Select, Button::Up, Button::Down, Button::Left, Button::Right];
        assert(all@ =~= all_buttons());
        let ghost j0 = joypad;
        let mut i: usize = 0;
        while i < 8
            invariant
                i <= 8,
                all@ == all_buttons(),
                j0.wf(),
                joypad.wf(),
                joypad == buttons_set(j0, all@.take(i as int), true),
            decreases 8 - i,
        {
            joypad.button_released(all[i]);
            i = i + 1;
            assert(all@.take(i as int).drop_last() =~= all@.take((i - 1) as int));
        }
        assert(all@.take(8) =~= all@);
        let ghost j1 = joypad;
        let mut any_pressed = false;
        let mut k: usize = 0;
        while k < pressed.len()
            invariant
                k <= pressed@.len(),
                joypad.wf(),
                j1.wf(),
                joypad == buttons_set(j1, pressed@.take(k as int), false),
                any_pressed == (k > 0),
            decreases pressed@.len() - k,
        {
            joypad.button_pressed(pressed[k]);
            any_pressed = true;
            k = k + 1;
            assert(pressed@.take(k as int).drop_last() =~= pressed@.take((k - 1) as int));
        }
        assert(pressed@.take(pressed@.len() as int) =~= pressed@);
        joypad.select_buttons = select_buttons;
        joypad.select_dpad = select_dpad;
        proof {
            lemma_buttons_keep_selection(j0, all_buttons(), true);
            lemma_buttons_keep_selection(j1, pressed@, false);
        }
        if any_pressed {
            self.memory_bus.trigger_interrupt(Interrupt::JOYPAD);
        }
        self.memory_bus.dmg_io.joypad = joypad;
    }

    /// Whether the emulator may stop now: the cartridge RAM holds nothing unsaved.
    pub fn can_stop(&self) -> (r: bool)
        ensures
            r == !self.memory_bus.mbc.sram_dirty(),
    {
        !self.memory_bus.mbc.dirty_sram()
    }

    /// The battery-backed RAM file to write, when it changed since the last save.
    pub fn save_ram(&mut self) -> (r: Option<SaveFile>)
        requires
            old(self).wf(),
        ensures
            final(self).wf(),
            final(self).cpu == old(self).cpu,
            final(self).memory_bus == (MemoryBus { mbc: final(self).memory_bus.mbc, ..old(self).memory_bus }),
            old(self).memory_bus.mbc.battery_ram() ==> !final(self).memory_bus.mbc.sram_dirty() && (r is Some
                <==> old(self).memory_bus.mbc.sram_dirty()),
            old(self).memory_bus.mbc.battery_ram() ==> (final(self).memory_bus.mbc.sram() matches Some(s)
                && old(self).memory_bus.mbc.sram() matches Some(o) && s.data@ == o.data@ && s.save_file_path
                == o.save_file_path && (r matches Some(f) ==> f.path@ == o.save_file_path@ && f.data@ == o.data@)),
            !old(self).memory_bus.mbc.battery_ram() ==> r is None && final(self).memory_bus == old(self).memory_bus,
    {
        self.memory_bus.mbc.save_ram()
    }

    /// The clock file to write, when the cartridge has a clock that changed since the last save.
    pub fn save_rtc(&mut self) -> (r: Option<SaveFile>)
        requires
            old(self).wf(),
        ensures
            final(self).wf(),
            final(self).cpu == old(self).cpu,
            final(self).memory_bus == (MemoryBus { mbc: final(self).memory_bus.mbc, ..old(self).memory_bus }),
            old(self).memory_bus.mbc.rtc_saved(&final(self).memory_bus.mbc, r),
    {
        self.memory_bus.mbc.save_rtc()
    }
}

/// Pressing or releasing buttons keeps the selection lines.
proof fn lemma_buttons_keep_selection(j: Joypad, buttons: Seq<Button>, released: bool)
    ensures
        buttons_set(j, buttons, released).select_buttons == j.select_buttons,
        buttons_set(j, buttons, released).select_dpad == j.select_dpad,
    decreases buttons.len(),
{
    if buttons.len() > 0 {
        lemma_buttons_keep_selection(j, buttons.drop_last(), released);
    }
}

} // verus!
