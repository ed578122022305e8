use vstd::prelude::*;
use vstd::arithmetic::power2::{pow2, lemma2_to64};

use crate::alu::{add8, sub8, and8, or8, xor8, inc8, dec8, add16, add_sp, add_offset, daa, rlc8, rrc8, rl8, rr8, sla8, sra8, swap8, srl8, add_value, add_flags, sub_value, sub_flags, logic_flags, shift_flags, inc_result, dec_result, add16_result, add_sp_result, offset_address, daa_result, rlc_value, rrc_value, rl_value, rr_value, sra_value, swap_value};
use crate::interrupts::{Interrupt, flags_byte, flags_of_byte, with_flag, flag_of, interrupt_mask, InterruptFlags};
use crate::memory_bus::MemoryBus;
use crate::registers::{FlagsRegister, Registers, pair, high_byte, low_byte, flags_byte as f_byte};

verus! {

pub const INITIAL_PC: u16 = 0x0100;
pub const INITIAL_SP: u16 = 0xFFFE;
pub const DIVIDER_REGISTER: u16 = 0xFF04;

/// The 16-bit value plus one, wrapping.
pub open spec fn inc16(x: u16) -> u16 {
    ((x + 1) % 65536) as u16
}

/// The 16-bit value minus one, wrapping.
pub open spec fn dec16(x: u16) -> u16 {
    ((x - 1) % 65536) as u16
}

/// The 16-bit value plus `n`, wrapping.
pub open spec fn add16w(x: u16, n: int) -> u16 {
    ((x + n) % 65536) as u16
}

/// How an instruction changes the interrupt master enable.
#[derive(Debug, Clone, Copy, PartialEq, Eq, Structural)]
pub enum ImeChange {
    Keep,
    Disable,
    Enable,
}

/// The SM83 processor: registers, program counter, stack pointer and the halt and stop states.
#[derive(Debug, Clone, Copy, PartialEq, Eq, Structural)]
pub struct CPU {
    pub registers: Registers,
    pub pc: u16,
    pub sp: u16,
    pub halted: bool,
    pub stopped: bool,
}

/// What one instruction does: the processor after it, the bytes it writes in order, its effect on
/// the interrupt enable, the clock cycles it takes, and whether every access it makes succeeds.
pub struct Effect {
    pub cpu: CPU,
    pub writes: Seq<(u16, u8)>,
    pub ime: ImeChange,
    pub cycles: u8,
    pub ok: bool,
}

/// An instruction that only changes the processor.
pub open spec fn plain(cpu: CPU, cycles: u8, ok: bool) -> Effect {
    Effect { cpu, writes: seq![], ime: ImeChange::Keep, cycles, ok }
}

/// An instruction that writes one byte.
pub open spec fn wrote(cpu: CPU, address: u16, value: u8, cycles: u8, ok: bool) -> Effect {
    Effect { cpu, writes: seq![(address, value)], ime: ImeChange::Keep, cycles, ok }
}

/// An instruction that writes a 16-bit value, low byte first.
pub open spec fn wrote16(cpu: CPU, address: u16, value: u16, cycles: u8, ok: bool) -> Effect {
    Effect {
        cpu,
        writes: seq![(address, low_byte(value)), (inc16(address), high_byte(value))],
        ime: ImeChange::Keep,
        cycles,
        ok,
    }
}

/// The bus with an interrupt-enable change applied.
pub open spec fn with_ime(bus: MemoryBus, ime: ImeChange) -> MemoryBus {
    match ime {
        ImeChange::Keep => bus,
        ImeChange::Disable => MemoryBus { interrupt_master_enable: false, ..bus },
        ImeChange::Enable => MemoryBus { enabling_ime: true, ..bus },
    }
}

/// Whether `new` is `old` after the interrupt-enable change and then the writes, in order.
pub open spec fn applied(old: MemoryBus, writes: Seq<(u16, u8)>, ime: ImeChange, new: MemoryBus) -> bool {
    let start = with_ime(old, ime);
    if writes.len() == 0 {
        new == start
    } else if writes.len() == 1 {
        new.written(&start, writes[0].0, writes[0].1)
    } else {
        writes.len() == 2 && exists|mid: MemoryBus|
            #![trigger mid.written(&start, writes[0].0, writes[0].1)]
            mid.wf() && mid.written(&start, writes[0].0, writes[0].1) && new.written(&mid, writes[1].0, writes[1].1)
    }
}

impl CPU {
    /// Register `i` in instruction order: B, C, D, E, H, L, -, A.
    pub open spec fn reg8(self, i: u8) -> u8 {
        let r = self.registers;
        if i == 0 {
            r.b
        } else if i == 1 {
            r.c
        } else if i == 2 {
            r.d
        } else if i == 3 {
            r.e
        } else if i == 4 {
            r.h
        } else if i == 5 {
            r.l
        } else {
            r.a
        }
    }

    /// The processor with register `i` set to `v`.
    pub open spec fn with_reg8(self, i: u8, v: u8) -> CPU {
        let r = self.registers;
        let regs = if i == 0 {
            Registers { b: v, ..r }
        } else if i == 1 {
            Registers { c: v, ..r }
        } else if i == 2 {
            Registers { d: v, ..r }
        } else if i == 3 {
            Registers { e: v, ..r }
        } else if i == 4 {
            Registers { h: v, ..r }
        } else if i == 5 {
            Registers { l: v, ..r }
        } else {
            Registers { a: v, ..r }
        };
        CPU { registers: regs, ..self }
    }

    pub open spec fn with_flags(self, f: FlagsRegister) -> CPU {
        CPU { registers: Registers { f, ..self.registers }, ..self }
    }

    pub open spec fn with_a(self, a: u8) -> CPU {
        CPU { registers: Registers { a, ..self.registers }, ..self }
    }

    pub open spec fn with_hl(self, v: u16) -> CPU {
        CPU { registers: self.registers.with_hl(v), ..self }
    }

    /// Register pair `i` of the 16-bit load and arithmetic group: BC, DE, HL, SP.
    pub open spec fn rr(self, i: u8) -> u16 {
        if i == 0 {
            self.registers.bc()
        } else if i == 1 {
            self.registers.de()
        } else if i == 2 {
            self.registers.hl()
        } else {
            self.sp
        }
    }

    pub open spec fn with_rr(self, i: u8, v: u16) -> CPU {
        if i == 0 {
            CPU { registers: self.registers.with_bc(v), ..self }
        } else if i == 1 {
            CPU { registers: self.registers.with_de(v), ..self }
        } else if i == 2 {
            CPU { registers: self.registers.with_hl(v), ..self }
        } else {
            CPU { sp: v, ..self }
        }
    }

    /// Register pair `i` of the stack group: BC, DE, HL, AF.
    pub open spec fn stack_rr(self, i: u8) -> u16 {
        if i == 3 {
            self.registers.af()
        } else {
            self.rr(i)
        }
    }

    pub open spec fn with_stack_rr(self, i: u8, v: u16) -> CPU {
        if i == 3 {
            CPU { registers: self.registers.with_af(v), ..self }
        } else {
            self.with_rr(i, v)
        }
    }

    /// The processor with the program counter moved on by `n` bytes.
    pub open spec fn advanced(self, n: int) -> CPU {
        CPU { pc: add16w(self.pc, n), ..self }
    }

    /// Condition `cc` of a conditional jump: NZ, Z, NC, C.
    pub open spec fn condition(self, cc: u8) -> bool {
        let f = self.registers.f;
        if cc == 0 {
            !f.zero
        } else if cc == 1 {
            f.zero
        } else if cc == 2 {
            !f.carry
        } else {
            f.carry
        }
    }
}

/// The byte after the program counter.
pub open spec fn imm8(c: CPU, bus: MemoryBus) -> u8 {
    bus.read_value(c.pc)
}

/// The little-endian word after the program counter.
pub open spec fn imm16(c: CPU, bus: MemoryBus) -> u16 {
    pair(bus.read_value(inc16(c.pc)), bus.read_value(c.pc))
}

pub open spec fn imm8_ok(c: CPU, bus: MemoryBus) -> bool {
    bus.read_ok(c.pc)
}

pub open spec fn imm16_ok(c: CPU, bus: MemoryBus) -> bool {
    bus.read_ok(c.pc) && bus.read_ok(inc16(c.pc))
}

/// The result of ALU operation `op` (ADD, ADC, SUB, SBC, AND, XOR, OR, CP) on A and `v`.
pub open spec fn alu_result(op: u8, a: u8, v: u8, f: FlagsRegister) -> (u8, FlagsRegister) {
    if op == 0 {
        (add_value(a, v, false), add_flags(a, v, false))
    } else if op == 1 {
        (add_value(a, v, f.carry), add_flags(a, v, f.carry))
    } else if op == 2 {
        (sub_value(a, v, false), sub_flags(a, v, false))
    } else if op == 3 {
        (sub_value(a, v, f.carry), sub_flags(a, v, f.carry))
    } else if op == 4 {
        (a & v, logic_flags(a & v, true))
    } else if op == 5 {
        (a ^ v, logic_flags(a ^ v, false))
    } else if op == 6 {
        (a | v, logic_flags(a | v, false))
    } else {
        (a, sub_flags(a, v, false))
    }
}

/// The result of rotate or shift `op` (RLC, RRC, RL, RR, SLA, SRA, SWAP, SRL) on `x`.
pub open spec fn shift_result(op: u8, x: u8, f: FlagsRegister) -> (u8, FlagsRegister) {
    let (r, c) = if op == 0 {
        (rlc_value(x), x >= 128)
    } else if op == 1 {
        (rrc_value(x), x % 2 == 1)
    } else if op == 2 {
        (rl_value(x, f.carry), x >= 128)
    } else if op == 3 {
        (rr_value(x, f.carry), x % 2 == 1)
    } else if op == 4 {
        (((x * 2) % 256) as u8, x >= 128)
    } else if op == 5 {
        (sra_value(x), x % 2 == 1)
    } else if op == 6 {
        (swap_value(x), false)
    } else {
        (x / 2, x % 2 == 1)
    };
    (r, shift_flags(r, c))
}

/// The instruction semantics of opcodes 0x00-0x3F; `c` has the program counter past the opcode.
#[verifier::opaque]
pub open spec fn block0(c: CPU, bus: MemoryBus, op: u8) -> Effect {
    let col = op % 16;
    if col == 0 || col == 8 {
        control0(c, bus, op)
    } else if col == 1 || col == 3 || col == 9 || col == 11 {
        wide0(c, bus, op)
    } else if col == 2 || col == 10 {
        indirect0(c, bus, op)
    } else if col == 4 || col == 5 || col == 12 || col == 13 || col == 6 || col == 14 {
        byte0(c, bus, op)
    } else {
        accumulator0(c, op)
    }
}

/// NOP, STOP, LD (nn),SP and the relative jumps.
#[verifier::opaque]
pub open spec fn control0(c: CPU, bus: MemoryBus, op: u8) -> Effect {
    if op == 0x00 {
        plain(c, 4, true)
    } else if op == 0x10 {
        wrote(CPU { stopped: true, ..c }, 0xFF04, 0, 4, bus.write_ok(0xFF04))
    } else if op == 0x08 {
        let nn = imm16(c, bus);
        wrote16(c.advanced(2), nn, c.sp, 20, imm16_ok(c, bus) && bus.write_ok(nn) && bus.write_ok(inc16(nn)))
    } else {
        let e = imm8(c, bus);
        let c1 = c.advanced(1);
        let taken = op == 0x18 || c.condition(((op - 0x20) / 8) as u8);
        if taken {
            plain(CPU { pc: offset_address(c1.pc, e), ..c1 }, 12, imm8_ok(c, bus))
        } else {
            plain(c1, 8, imm8_ok(c, bus))
        }
    }
}

/// LD rr,nn, INC rr, DEC rr and ADD HL,rr.
#[verifier::opaque]
pub open spec fn wide0(c: CPU, bus: MemoryBus, op: u8) -> Effect {
    let i = (op / 16) as u8;
    if op % 16 == 1 {
        plain(c.advanced(2).with_rr(i, imm16(c, bus)), 12, imm16_ok(c, bus))
    } else {
        plain(wide0_register(c, op), 8, true)
    }
}

/// INC rr, DEC rr and ADD HL,rr: the processor after the register arithmetic.
pub open spec fn wide0_register(c: CPU, op: u8) -> CPU {
    let i = (op / 16) as u8;
    let col = op % 16;
    if col == 3 {
        c.with_rr(i, inc16(c.rr(i)))
    } else if col == 11 {
        c.with_rr(i, dec16(c.rr(i)))
    } else {
        let (r, f) = add16_result(c.registers.hl(), c.rr(i), c.registers.f);
        c.with_flags(f).with_hl(r)
    }
}

/// The address of LD (rr),A and LD A,(rr): BC, DE, HL (then incremented), HL (then decremented).
pub open spec fn indirect_address(c: CPU, row: u8) -> u16 {
    if row == 0 {
        c.registers.bc()
    } else if row == 1 {
        c.registers.de()
    } else {
        c.registers.hl()
    }
}

/// The processor after the HL update of LD (HL+),A, LD (HL-),A and their loads.
pub open spec fn indirect_after(c: CPU, row: u8) -> CPU {
    if row == 2 {
        c.with_hl(inc16(c.registers.hl()))
    } else if row == 3 {
        c.with_hl(dec16(c.registers.hl()))
    } else {
        c
    }
}

/// LD (BC),A, LD (DE),A, LD (HL+),A, LD (HL-),A and the matching loads into A.
#[verifier::opaque]
pub open spec fn indirect0(c: CPU, bus: MemoryBus, op: u8) -> Effect {
    let row = (op / 16) as u8;
    let address = indirect_address(c, row);
    if op % 16 == 2 {
        wrote(indirect_after(c, row), address, c.registers.a, 8, bus.write_ok(address))
    } else {
        plain(indirect_after(c.with_a(bus.read_value(address)), row), 8, bus.read_ok(address))
    }
}

/// INC r, DEC r and LD r,n, with (HL) as register 6.
#[verifier::opaque]
pub open spec fn byte0(c: CPU, bus: MemoryBus, op: u8) -> Effect {
    let i = (op / 8) as u8;
    let kind = op % 8;
    let hl = c.registers.hl();
    if kind == 6 {
        let n = imm8(c, bus);
        if i == 6 {
            wrote(c.advanced(1), hl, n, 12, imm8_ok(c, bus) && bus.write_ok(hl))
        } else {
            plain(c.advanced(1).with_reg8(i, n), 8, imm8_ok(c, bus))
        }
    } else {
        let x = if i == 6 { bus.read_value(hl) } else { c.reg8(i) };
        let (r, f) = if kind == 4 { inc_result(x, c.registers.f) } else { dec_result(x, c.registers.f) };
        if i == 6 {
            wrote(c.with_flags(f), hl, r, 12, bus.read_ok(hl) && bus.write_ok(hl))
        } else {
            plain(c.with_flags(f).with_reg8(i, r), 4, true)
        }
    }
}

/// RLCA, RRCA, RLA, RRA, DAA, CPL, SCF, CCF.
#[verifier::opaque]
pub open spec fn accumulator0(c: CPU, op: u8) -> Effect {
    let a = c.registers.a;
    let f = c.registers.f;
    if op == 0x07 || op == 0x0F || op == 0x17 || op == 0x1F {
        let (r, cf) = shift_result(if op == 0x07 { 0u8 } else if op == 0x0F { 1u8 } else if op == 0x17 { 2u8 } else { 3u8 }, a, f);
        plain(c.with_a(r).with_flags(FlagsRegister { zero: false, ..cf }), 4, true)
    } else if op == 0x27 {
        let (r, f2) = daa_result(a, f);
        plain(c.with_a(r).with_flags(f2), 4, true)
    } else if op == 0x2F {
        plain(c.with_a(!a).with_flags(FlagsRegister { subtract: true, half_carry: true, ..f }), 4, true)
    } else if op == 0x37 {
        plain(c.with_flags(FlagsRegister { subtract: false, half_carry: false, carry: true, ..f }), 4, true)
    } else {
        plain(c.with_flags(FlagsRegister { subtract: false, half_carry: false, carry: !f.carry, ..f }), 4, true)
    }
}

/// LD r,r', LD r,(HL), LD (HL),r and HALT (opcodes 0x40-0x7F).
#[verifier::opaque]
pub open spec fn load_block(c: CPU, bus: MemoryBus, op: u8) -> Effect {
    let dst = ((op / 8) % 8) as u8;
    let src = (op % 8) as u8;
    let hl = c.registers.hl();
    if op == 0x76 {
        plain(CPU { halted: true, ..c }, 4, true)
    } else if dst == 6 {
        wrote(c, hl, c.reg8(src), 8, bus.write_ok(hl))
    } else if src == 6 {
        plain(c.with_reg8(dst, bus.read_value(hl)), 8, bus.read_ok(hl))
    } else {
        plain(c.with_reg8(dst, c.reg8(src)), 4, true)
    }
}

/// The eight ALU operations on A and a register or (HL) (opcodes 0x80-0xBF).
#[verifier::opaque]
pub open spec fn alu_block(c: CPU, bus: MemoryBus, op: u8) -> Effect {
    let alu = ((op / 8) % 8) as u8;
    let src = (op % 8) as u8;
    let hl = c.registers.hl();
    let v = if src == 6 { bus.read_value(hl) } else { c.reg8(src) };
    let (r, f) = alu_result(alu, c.registers.a, v, c.registers.f);
    plain(c.with_a(r).with_flags(f), if src == 6 { 8 } else { 4 }, src == 6 ==> bus.read_ok(hl))
}

/// The clock cycles of a CB-prefixed instruction, prefix included: 8 on a register, 12 for BIT
/// on (HL), 16 for the others on (HL).
pub open spec fn cb_cycles(cb: u8) -> u8 {
    if cb % 8 != 6 {
        8
    } else if cb / 64 == 1 {
        12
    } else {
        16
    }
}

/// The CB-prefixed instructions: rotates and shifts, BIT, RES and SET on a register or (HL).
#[verifier::opaque]
pub open spec fn cb_block(c: CPU, bus: MemoryBus) -> Effect {
    let cb = imm8(c, bus);
    let c1 = c.advanced(1);
    let group = cb / 64;
    let n = ((cb / 8) % 8) as u8;
    let reg = (cb % 8) as u8;
    let hl = c.registers.hl();
    let x = if reg == 6 { bus.read_value(hl) } else { c.reg8(reg) };
    let cycles = cb_cycles(cb);
    let read_ok = imm8_ok(c, bus) && (reg == 6 ==> bus.read_ok(hl));
    if group == 1 {
        let f = c.registers.f;
        plain(c1.with_flags(FlagsRegister { zero: x & (1u8 << n) == 0, subtract: false, half_carry: true, ..f }), cycles, read_ok)
    } else {
        let (r, c2) = if group == 0 {
            let (r, f) = shift_result(n, x, c.registers.f);
            (r, c1.with_flags(f))
        } else if group == 2 {
            ((x & !(1u8 << n)) as u8, c1)
        } else {
            ((x | (1u8 << n)) as u8, c1)
        };
        if reg == 6 {
            wrote(c2, hl, r, cycles, read_ok && bus.write_ok(hl))
        } else {
            plain(c2.with_reg8(reg, r), cycles, read_ok)
        }
    }
}

/// The value popped from the stack: the byte at SP, then the byte after it.
pub open spec fn popped(c: CPU, bus: MemoryBus) -> u16 {
    pair(bus.read_value(inc16(c.sp)), bus.read_value(c.sp))
}

pub open spec fn pop_ok(c: CPU, bus: MemoryBus) -> bool {
    bus.read_ok(c.sp) && bus.read_ok(inc16(c.sp))
}

/// `value` pushed: SP moves down by two and the value is written there, low byte first.
pub open spec fn pushed(c: CPU, bus: MemoryBus, value: u16, target: CPU, cycles: u8, ok: bool) -> Effect {
    let sp = add16w(c.sp, -2);
    wrote16(CPU { sp, ..target }, sp, value, cycles, ok && bus.write_ok(sp) && bus.write_ok(inc16(sp)))
}

/// The instruction semantics of opcodes 0xC0-0xFF other than 0xCB.
#[verifier::opaque]
pub open spec fn block3(c: CPU, bus: MemoryBus, op: u8) -> Effect {
    let col = op % 16;
    if col == 0 || col == 8 {
        if op == 0xE0 || op == 0xF0 || op == 0xE8 || op == 0xF8 {
            high_and_sp(c, bus, op)
        } else {
            conditional_return(c, bus, op)
        }
    } else if col == 1 || col == 5 || col == 9 {
        stack3(c, bus, op)
    } else if col == 2 || col == 10 || col == 3 || col == 11 || col == 4 || col == 12 || col == 13 {
        jumps3(c, bus, op)
    } else if col == 6 || col == 14 {
        alu_immediate(c, bus, op)
    } else {
        restart(c, bus, op)
    }
}

/// The ALU operations on A and an immediate byte.
#[verifier::opaque]
pub open spec fn alu_immediate(c: CPU, bus: MemoryBus, op: u8) -> Effect {
    let (r, f) = alu_result(((op - 0xC0) / 8) as u8, c.registers.a, imm8(c, bus), c.registers.f);
    plain(c.advanced(1).with_a(r).with_flags(f), 8, imm8_ok(c, bus))
}

/// RST: a call to the fixed address that the opcode names.
#[verifier::opaque]
pub open spec fn restart(c: CPU, bus: MemoryBus, op: u8) -> Effect {
    pushed(c, bus, c.pc, CPU { pc: (op - 0xC7) as u16, ..c }, 16, true)
}

/// RET cc (taken: 20 cycles, not taken: 8).
#[verifier::opaque]
pub open spec fn conditional_return(c: CPU, bus: MemoryBus, op: u8) -> Effect {
    let cc = ((op - 0xC0) / 8) as u8;
    if c.condition(cc) {
        plain(CPU { pc: popped(c, bus), sp: add16w(c.sp, 2), ..c }, 20, pop_ok(c, bus))
    } else {
        plain(c, 8, true)
    }
}

/// LDH (n),A, LDH A,(n), ADD SP,e and LD HL,SP+e.
#[verifier::opaque]
pub open spec fn high_and_sp(c: CPU, bus: MemoryBus, op: u8) -> Effect {
    let n = imm8(c, bus);
    let c1 = c.advanced(1);
    let address = (0xFF00 + n) as u16;
    if op == 0xE0 {
        wrote(c1, address, c.registers.a, 12, imm8_ok(c, bus) && bus.write_ok(address))
    } else if op == 0xF0 {
        plain(c1.with_a(bus.read_value(address)), 12, imm8_ok(c, bus) && bus.read_ok(address))
    } else {
        let (r, f) = add_sp_result(c.sp, n);
        if op == 0xE8 {
            plain(CPU { sp: r, ..c1 }.with_flags(f), 16, imm8_ok(c, bus))
        } else {
            plain(c1.with_hl(r).with_flags(f), 12, imm8_ok(c, bus))
        }
    }
}

/// POP rr, PUSH rr, RET, RETI, JP (HL) and LD SP,HL.
#[verifier::opaque]
pub open spec fn stack3(c: CPU, bus: MemoryBus, op: u8) -> Effect {
    let i = ((op - 0xC0) / 16) as u8;
    let col = op % 16;
    if col == 1 {
        plain(CPU { sp: add16w(c.sp, 2), ..c }.with_stack_rr(i, popped(c, bus)), 12, pop_ok(c, bus))
    } else if col == 5 {
        pushed(c, bus, c.stack_rr(i), c, 16, true)
    } else if op == 0xC9 || op == 0xD9 {
        let e = plain(CPU { pc: popped(c, bus), sp: add16w(c.sp, 2), ..c }, 16, pop_ok(c, bus));
        if op == 0xD9 {
            Effect { ime: ImeChange::Enable, ..e }
        } else {
            e
        }
    } else if op == 0xE9 {
        plain(CPU { pc: c.registers.hl(), ..c }, 4, true)
    } else {
        plain(CPU { sp: c.registers.hl(), ..c }, 8, true)
    }
}

/// JP, JP cc, CALL, CALL cc, LD (C),A, LD A,(C), LD (nn),A, LD A,(nn), DI, EI, and the unused
/// opcodes of those columns, which do nothing for 4 cycles.
#[verifier::opaque]
pub open spec fn jumps3(c: CPU, bus: MemoryBus, op: u8) -> Effect {
    let nn = imm16(c, bus);
    let c2 = c.advanced(2);
    let ok = imm16_ok(c, bus);
    let cc = ((op - 0xC0) / 8) as u8;
    let col = op % 16;
    if op == 0xC3 {
        plain(CPU { pc: nn, ..c2 }, 16, ok)
    } else if op == 0xCD {
        pushed(c2, bus, c2.pc, CPU { pc: nn, ..c2 }, 24, ok)
    } else if op == 0xC2 || op == 0xCA || op == 0xD2 || op == 0xDA {
        if c.condition(cc) {
            plain(CPU { pc: nn, ..c2 }, 16, ok)
        } else {
            plain(c2, 12, ok)
        }
    } else if op == 0xC4 || op == 0xCC || op == 0xD4 || op == 0xDC {
        if c.condition(cc) {
            pushed(c2, bus, c2.pc, CPU { pc: nn, ..c2 }, 24, ok)
        } else {
            plain(c2, 12, ok)
        }
    } else if op == 0xE2 {
        let address = (0xFF00 + c.registers.c) as u16;
        wrote(c, address, c.registers.a, 8, bus.write_ok(address))
    } else if op == 0xF2 {
        let address = (0xFF00 + c.registers.c) as u16;
        plain(c.with_a(bus.read_value(address)), 8, bus.read_ok(address))
    } else if op == 0xEA {
        wrote(c2, nn, c.registers.a, 16, ok && bus.write_ok(nn))
    } else if op == 0xFA {
        plain(c2.with_a(bus.read_value(nn)), 16, ok && bus.read_ok(nn))
    } else if op == 0xF3 {
        Effect { ime: ImeChange::Disable, ..plain(c, 4, true) }
    } else if op == 0xFB {
        Effect { ime: ImeChange::Enable, ..plain(c, 4, true) }
    } else {
        plain(c, 4, true)
    }
}

/// One instruction: a halted processor waits 4 cycles and wakes when an interrupt is
/// requested; otherwise the opcode at PC is fetched and executed.
pub open spec fn step(cpu: CPU, bus: MemoryBus) -> Effect {
    if cpu.halted {
        plain(CPU { halted: bus.interrupt_flags == 0, ..cpu }, 4, true)
    } else {
        let op = bus.read_value(cpu.pc);
        let c = cpu.advanced(1);
        let e = if op <= 0x3F {
            block0(c, bus, op)
        } else if op <= 0x7F {
            load_block(c, bus, op)
        } else if op <= 0xBF {
            alu_block(c, bus, op)
        } else if op == 0xCB {
            cb_block(c, bus)
        } else {
            block3(c, bus, op)
        };
        Effect { ok: bus.read_ok(cpu.pc) && e.ok, ..e }
    }
}


/// The interrupt to service: the first of VBLANK, LCDSTAT, TIMER, SERIAL, JOYPAD that is both
/// requested in IF and enabled in IE.
pub open spec fn pending(bus: MemoryBus) -> Option<Interrupt> {
    let f = flags_of_byte(bus.interrupt_flags);
    let ie = bus.interrupt_enable_register;
    if f.vblank && ie & 0x01 != 0 {
        Some(Interrupt::VBLANK)
    } else if f.lcd_stat && ie & 0x02 != 0 {
        Some(Interrupt::LCDSTAT)
    } else if f.timer && ie & 0x04 != 0 {
        Some(Interrupt::TIMER)
    } else if f.serial && ie & 0x08 != 0 {
        Some(Interrupt::SERIAL)
    } else if f.joypad && ie & 0x10 != 0 {
        Some(Interrupt::JOYPAD)
    } else {
        None
    }
}

/// The handler address of an interrupt.
pub open spec fn vector(i: Interrupt) -> u16 {
    match i {
        Interrupt::VBLANK => 0x0040,
        Interrupt::LCDSTAT => 0x0048,
        Interrupt::TIMER => 0x0050,
        Interrupt::SERIAL => 0x0058,
        Interrupt::JOYPAD => 0x0060,
    }
}

/// The bus after a scheduled interrupt enable (EI) takes effect.
pub open spec fn ime_latched(bus: MemoryBus) -> MemoryBus {
    if bus.enabling_ime {
        MemoryBus { interrupt_master_enable: true, enabling_ime: false, ..bus }
    } else {
        bus
    }
}

/// The interrupt that an interrupt check services, if any.
pub open spec fn serviced(bus: MemoryBus) -> Option<Interrupt> {
    let b1 = ime_latched(bus);
    if b1.interrupt_master_enable {
        pending(b1)
    } else {
        None
    }
}

/// The bus with interrupts disabled.
pub open spec fn ime_cleared(bus: MemoryBus) -> MemoryBus {
    MemoryBus { interrupt_master_enable: false, ..bus }
}

/// Whether `mid` is `start` after `pc` is pushed at `sp` (low byte first).
pub open spec fn pc_pushed(start: MemoryBus, sp: u16, pc: u16, mid: MemoryBus) -> bool {
    applied(start, seq![(sp, low_byte(pc)), (inc16(sp), high_byte(pc))], ImeChange::Keep, mid)
}

/// Whether the stack writes of servicing an interrupt succeed.
pub open spec fn check_ok(cpu: CPU, bus: MemoryBus) -> bool {
    serviced(bus) is Some ==> bus.write_ok(add16w(cpu.sp, -2)) && bus.write_ok(inc16(add16w(cpu.sp, -2)))
}

/// Whether the processor and bus moved from `old_cpu`, `old_bus` to `cpu`, `bus` as `e` says,
/// taking `cycles` cycles.
pub open spec fn performs(e: Effect, old_bus: MemoryBus, cpu: CPU, bus: MemoryBus, cycles: u8) -> bool {
    &&& cpu == e.cpu
    &&& cycles == e.cycles
    &&& applied(old_bus, e.writes, e.ime, bus)
}

/// The ALU operation `op` on A and `v`.
fn alu(op: u8, a: u8, v: u8, f: FlagsRegister) -> (r: (u8, FlagsRegister))
    ensures
        r == alu_result(op, a, v, f),
{
    if op == 0 {
        add8(a, v, false)
    } else if op == 1 {
        add8(a, v, f.carry)
    } else if op == 2 {
        sub8(a, v, false)
    } else if op == 3 {
        sub8(a, v, f.carry)
    } else if op == 4 {
        and8(a, v)
    } else if op == 5 {
        xor8(a, v)
    } else if op == 6 {
        or8(a, v)
    } else {
        let (_, flags) = sub8(a, v, false);
        (a, flags)
    }
}

/// The rotate or shift `op` on `x`.
fn shift(op: u8, x: u8, f: FlagsRegister) -> (r: (u8, FlagsRegister))
    ensures
        r == shift_result(op, x, f),
{
    let (r, c) = if op == 0 {
        rlc8(x)
    } else if op == 1 {
        rrc8(x)
    } else if op == 2 {
        rl8(x, f.carry)
    } else if op == 3 {
        rr8(x, f.carry)
    } else if op == 4 {
        sla8(x)
    } else if op == 5 {
        sra8(x)
    } else if op == 6 {
        (swap8(x), false)
    } else {
        srl8(x)
    };
    (r, FlagsRegister { zero: r == 0, subtract: false, half_carry: false, carry: c })
}

/// Writes a 16-bit value, low byte first, as two consecutive byte writes.
fn write_word(memory_bus: &mut MemoryBus, address: u16, value: u16)
    requires
        old(memory_bus).wf(),
        old(memory_bus).write_ok(address),
        old(memory_bus).write_ok(inc16(address)),
    ensures
        final(memory_bus).wf(),
        applied(*old(memory_bus), seq![(address, low_byte(value)), (inc16(address), high_byte(value))], ImeChange::Keep, *final(memory_bus)),
{
    let (msb, lsb) = crate::registers::split_pair(value);
    memory_bus.write_byte(address, lsb);
    let ghost mid = *memory_bus;
    proof {
        crate::memory_bus::lemma_write_keeps_write_ok(*old(memory_bus), mid, address, lsb);
    }
    assert(address.wrapping_add(1) == inc16(address));
    memory_bus.write_byte(address.wrapping_add(1), msb);
    let ghost w = seq![(address, low_byte(value)), (inc16(address), high_byte(value))];
    assert(w[0] == (address, lsb) && w[1] == (inc16(address), msb));
    assert(with_ime(*old(memory_bus), ImeChange::Keep) == *old(memory_bus));
    assert(mid.wf() && mid.written(&with_ime(*old(memory_bus), ImeChange::Keep), w[0].0, w[0].1) && memory_bus.written(&mid, w[1].0, w[1].1));
}

/// The processor as the boot ROM leaves it.
pub open spec fn power_on_cpu() -> CPU {
    CPU {
        registers: Registers {
            a: 0x01,
            b: 0x00,
            c: 0x13,
            d: 0x00,
            e: 0xD8,
            f: FlagsRegister { zero: true, subtract: false, half_carry: true, carry: true },
            h: 0x01,
            l: 0x4D,
        },
        pc: 0x0100,
        sp: 0xFFFE,
        halted: false,
        stopped: false,
    }
}

impl CPU {
    /// The processor as the boot ROM leaves it: PC 0x0100, SP 0xFFFE.
    pub fn new() -> (r: Self)
        ensures
            r == power_on_cpu(),
            r.pc == 0x0100 && r.sp == 0xFFFE && !r.halted && !r.stopped,
            r.registers.a == 0x01 && r.registers.b == 0x00 && r.registers.c == 0x13
                && r.registers.d == 0x00 && r.registers.e == 0xD8 && r.registers.h == 0x01
                && r.registers.l == 0x4D,
            r.registers.f == (FlagsRegister { zero: true, subtract: false, half_carry: true, carry: true }),
    {
        CPU { registers: Registers::new(), pc: INITIAL_PC, sp: INITIAL_SP, halted: false, stopped: false }
    }

    fn get_r8(&self, i: u8) -> (r: u8)
        ensures
            r == self.reg8(i),
    {
        if i == 0 {
            self.registers.b
        } else if i == 1 {
            self.registers.c
        } else if i == 2 {
            self.registers.d
        } else if i == 3 {
            self.registers.e
        } else if i == 4 {
            self.registers.h
        } else if i == 5 {
            self.registers.l
        } else {
            self.registers.a
        }
    }

    fn set_r8(&mut self, i: u8, v: u8)
        ensures
            *final(self) == old(self).with_reg8(i, v),
    {
        if i == 0 {
            self.registers.b = v;
        } else if i == 1 {
            self.registers.c = v;
        } else if i == 2 {
            self.registers.d = v;
        } else if i == 3 {
            self.registers.e = v;
        } else if i == 4 {
            self.registers.h = v;
        } else if i == 5 {
            self.registers.l = v;
        } else {
            self.registers.a = v;
        }
    }

    fn get_rr(&self, i: u8) -> (r: u16)
        ensures
            r == self.rr(i),
    {
        if i == 0 {
            self.registers.get_bc()
        } else if i == 1 {
            self.registers.get_de()
        } else if i == 2 {
            self.registers.get_hl()
        } else {
            self.sp
        }
    }

    fn set_rr(&mut self, i: u8, v: u16)
        ensures
            *final(self) == old(self).with_rr(i, v),
    {
        if i == 0 {
            self.registers.set_bc(v);
        } else if i == 1 {
            self.registers.set_de(v);
        } else if i == 2 {
            self.registers.set_hl(v);
        } else {
            self.sp = v;
        }
    }

    fn condition_holds(&self, cc: u8) -> (r: bool)
        ensures
            r == self.condition(cc),
    {
        if cc == 0 {
            !self.registers.f.zero
        } else if cc == 1 {
            self.registers.f.zero
        } else if cc == 2 {
            !self.registers.f.carry
        } else {
            self.registers.f.carry
        }
    }

    /// Reads the byte at PC and moves PC past it.
    fn read_immediate_byte(&mut self, memory_bus: &MemoryBus) -> (r: u8)
        requires
            memory_bus.wf(),
            memory_bus.read_ok(old(self).pc),
        ensures
            r == imm8(*old(self), *memory_bus),
            *final(self) == old(self).advanced(1),
    {
        let value = memory_bus.read_byte(self.pc);
        self.pc = self.pc.wrapping_add(1);
        value
    }

    /// Reads the little-endian word at PC and moves PC past it.
    fn read_immediate_short(&mut self, memory_bus: &MemoryBus) -> (r: u16)
        requires
            memory_bus.wf(),
            imm16_ok(*old(self), *memory_bus),
        ensures
            r == imm16(*old(self), *memory_bus),
            *final(self) == old(self).advanced(2),
    {
        let lsb = memory_bus.read_byte(self.pc);
        self.pc = self.pc.wrapping_add(1);
        let msb = memory_bus.read_byte(self.pc);
        self.pc = self.pc.wrapping_add(1);
        crate::registers::make_pair(msb, lsb)
    }

    fn exec_control0(&mut self, memory_bus: &mut MemoryBus, op: u8) -> (cycles: u8)
        requires
            old(memory_bus).wf(),
            op <= 0x3F && (op % 16 == 0 || op % 16 == 8),
            control0(*old(self), *old(memory_bus), op).ok,
        ensures
            final(memory_bus).wf(),
            performs(control0(*old(self), *old(memory_bus), op), *old(memory_bus), *final(self), *final(memory_bus), cycles),
    {
        proof {
            reveal(control0);
        }
        if op == 0x00 {
            4
        } else if op == 0x10 {
            self.stopped = true;
            memory_bus.write_byte(DIVIDER_REGISTER, 0);
            4
        } else if op == 0x08 {
            let nn = self.read_immediate_short(memory_bus);
            write_word(memory_bus, nn, self.sp);
            20
        } else {
            let offset = self.read_immediate_byte(memory_bus);
            let taken = op == 0x18 || self.condition_holds((op - 0x20) / 8);
            if taken {
                self.pc = add_offset(self.pc, offset);
                12
            } else {
                8
            }
        }
    }

    fn exec_wide0(&mut self, memory_bus: &mut MemoryBus, op: u8) -> (cycles: u8)
        requires
            old(memory_bus).wf(),
            op <= 0x3F && (op % 16 == 1 || op % 16 == 3 || op % 16 == 9 || op % 16 == 11),
            wide0(*old(self), *old(memory_bus), op).ok,
        ensures
            final(memory_bus).wf(),
            performs(wide0(*old(self), *old(memory_bus), op), *old(memory_bus), *final(self), *final(memory_bus), cycles),
    {
        proof {
            reveal(wide0);
        }
        if op % 16 == 1 {
            let nn = self.read_immediate_short(memory_bus);
            self.set_rr(op / 16, nn);
            12
        } else {
            self.exec_wide0_register(op);
            8
        }
    }

    /// INC rr, DEC rr and ADD HL,rr.
    fn exec_wide0_register(&mut self, op: u8)
        requires
            op <= 0x3F && (op % 16 == 3 || op % 16 == 9 || op % 16 == 11),
        ensures
            *final(self) == wide0_register(*old(self), op),
    {
        let i = op / 16;
        let col = op % 16;
        if col == 3 {
            let v = self.get_rr(i);
            self.set_rr(i, v.wrapping_add(1));
        } else if col == 11 {
            let v = self.get_rr(i);
            self.set_rr(i, v.wrapping_sub(1));
        } else {
            let (r, f) = add16(self.registers.get_hl(), self.get_rr(i), self.registers.f);
            self.registers.f = f;
            self.registers.set_hl(r);
        }
    }

    fn exec_indirect0(&mut self, memory_bus: &mut MemoryBus, op: u8) -> (cycles: u8)
        requires
            old(memory_bus).wf(),
            op <= 0x3F && (op % 16 == 2 || op % 16 == 10),
            indirect0(*old(self), *old(memory_bus), op).ok,
        ensures
            final(memory_bus).wf(),
            performs(indirect0(*old(self), *old(memory_bus), op), *old(memory_bus), *final(self), *final(memory_bus), cycles),
    {
        proof {
            reveal(indirect0);
        }
        let row = op / 16;
        let hl = self.registers.get_hl();
        let address = if row == 0 {
            self.registers.get_bc()
        } else if row == 1 {
            self.registers.get_de()
        } else {
            hl
        };
        if op % 16 == 2 {
            memory_bus.write_byte(address, self.registers.a);
        } else {
            self.registers.a = memory_bus.read_byte(address);
        }
        if row == 2 {
            self.registers.set_hl(hl.wrapping_add(1));
        } else if row == 3 {
            self.registers.set_hl(hl.wrapping_sub(1));
        }
        8
    }

    fn exec_byte0(&mut self, memory_bus: &mut MemoryBus, op: u8) -> (cycles: u8)
        requires
            old(memory_bus).wf(),
            op <= 0x3F && (op % 8 == 4 || op % 8 == 5 || op % 8 == 6),
            byte0(*old(self), *old(memory_bus), op).ok,
        ensures
            final(memory_bus).wf(),
            performs(byte0(*old(self), *old(memory_bus), op), *old(memory_bus), *final(self), *final(memory_bus), cycles),
    {
        proof {
            reveal(byte0);
        }
        let i = op / 8;
        let kind = op % 8;
        let hl = self.registers.get_hl();
        if kind == 6 {
            let n = self.read_immediate_byte(memory_bus);
            if i == 6 {
                memory_bus.write_byte(hl, n);
                12
            } else {
                self.set_r8(i, n);
                8
            }
        } else {
            let x = if i == 6 { memory_bus.read_byte(hl) } else { self.get_r8(i) };
            let (r, f) = if kind == 4 { inc8(x, self.registers.f) } else { dec8(x, self.registers.f) };
            self.registers.f = f;
            if i == 6 {
                memory_bus.write_byte(hl, r);
                12
            } else {
                self.set_r8(i, r);
                4
            }
        }
    }

    fn exec_accumulator0(&mut self, op: u8) -> (cycles: u8)
        requires
            op <= 0x3F && op % 8 == 7,
        ensures
            *final(self) == accumulator0(*old(self), op).cpu,
            cycles == accumulator0(*old(self), op).cycles,
            accumulator0(*old(self), op).writes.len() == 0 && accumulator0(*old(self), op).ime == ImeChange::Keep,
    {
        proof {
            reveal(accumulator0);
        }
        let a = self.registers.a;
        let f = self.registers.f;
        if op == 0x07 || op == 0x0F || op == 0x17 || op == 0x1F {
            let kind: u8 = if op == 0x07 { 0 } else if op == 0x0F { 1 } else if op == 0x17 { 2 } else { 3 };
            let (r, flags) = shift(kind, a, f);
            self.registers.a = r;
            self.registers.f = FlagsRegister { zero: false, ..flags };
        } else if op == 0x27 {
            let (r, flags) = daa(a, f);
            self.registers.a = r;
            self.registers.f = flags;
        } else if op == 0x2F {
            self.registers.a = !a;
            self.registers.f.subtract = true;
            self.registers.f.half_carry = true;
        } else if op == 0x37 {
            self.registers.f.subtract = false;
            self.registers.f.half_carry = false;
            self.registers.f.carry = true;
        } else {
            self.registers.f.subtract = false;
            self.registers.f.half_carry = false;
            self.registers.f.carry = !f.carry;
        }
        4
    }
}

impl CPU {
    fn exec_block0(&mut self, memory_bus: &mut MemoryBus, op: u8) -> (cycles: u8)
        requires
            old(memory_bus).wf(),
            op <= 0x3F,
            block0(*old(self), *old(memory_bus), op).ok,
        ensures
            final(memory_bus).wf(),
            performs(block0(*old(self), *old(memory_bus), op), *old(memory_bus), *final(self), *final(memory_bus), cycles),
    {
        proof {
            reveal(block0);
        }
        let col = op % 16;
        if col == 0 || col == 8 {
            self.exec_control0(memory_bus, op)
        } else if col == 1 || col == 3 || col == 9 || col == 11 {
            self.exec_wide0(memory_bus, op)
        } else if col == 2 || col == 10 {
            self.exec_indirect0(memory_bus, op)
        } else if col == 4 || col == 5 || col == 12 || col == 13 || col == 6 || col == 14 {
            self.exec_byte0(memory_bus, op)
        } else {
            self.exec_accumulator0(op)
        }
    }

    fn exec_load_block(&mut self, memory_bus: &mut MemoryBus, op: u8) -> (cycles: u8)
        requires
            old(memory_bus).wf(),
            0x40 <= op <= 0x7F,
            load_block(*old(self), *old(memory_bus), op).ok,
        ensures
            final(memory_bus).wf(),
            performs(load_block(*old(self), *old(memory_bus), op), *old(memory_bus), *final(self), *final(memory_bus), cycles),
    {
        proof {
            reveal(load_block);
        }
        let dst = (op / 8) % 8;
        let src = op % 8;
        let hl = self.registers.get_hl();
        if op == 0x76 {
            self.halted = true;
            4
        } else if dst == 6 {
            memory_bus.write_byte(hl, self.get_r8(src));
            8
        } else if src == 6 {
            let value = memory_bus.read_byte(hl);
            self.set_r8(dst, value);
            8
        } else {
            let value = self.get_r8(src);
            self.set_r8(dst, value);
            4
        }
    }

    fn exec_alu_block(&mut self, memory_bus: &MemoryBus, op: u8) -> (cycles: u8)
        requires
            memory_bus.wf(),
            0x80 <= op <= 0xBF,
            alu_block(*old(self), *memory_bus, op).ok,
        ensures
            *final(self) == alu_block(*old(self), *memory_bus, op).cpu,
            cycles == alu_block(*old(self), *memory_bus, op).cycles,
            alu_block(*old(self), *memory_bus, op).writes.len() == 0 && alu_block(*old(self), *memory_bus, op).ime == ImeChange::Keep,
    {
        proof {
            reveal(alu_block);
        }
        let op_kind = (op / 8) % 8;
        let src = op % 8;
        let value = if src == 6 { memory_bus.read_byte(self.registers.get_hl()) } else { self.get_r8(src) };
        let (r, f) = alu(op_kind, self.registers.a, value, self.registers.f);
        self.registers.a = r;
        self.registers.f = f;
        if src == 6 {
            8
        } else {
            4
        }
    }

    #[verifier::spinoff_prover]
    #[verifier::rlimit(100)]
    fn exec_cb(&mut self, memory_bus: &mut MemoryBus) -> (cycles: u8)
        requires
            old(memory_bus).wf(),
            cb_block(*old(self), *old(memory_bus)).ok,
        ensures
            final(memory_bus).wf(),
            performs(cb_block(*old(self), *old(memory_bus)), *old(memory_bus), *final(self), *final(memory_bus), cycles),
    {
        proof {
            reveal(cb_block);
        }
        let cb = self.read_immediate_byte(memory_bus);
        let group = cb / 64;
        let n = (cb / 8) % 8;
        let reg = cb % 8;
        let hl = self.registers.get_hl();
        let x = if reg == 6 { memory_bus.read_byte(hl) } else { self.get_r8(reg) };
        let cycles: u8 = if reg != 6 {
            8
        } else if group == 1 {
            12
        } else {
            16
        };
        if group == 1 {
            self.registers.f = crate::alu::bit8(n, x, self.registers.f);
        } else {
            let r = if group == 0 {
                let (r, f) = shift(n, x, self.registers.f);
                self.registers.f = f;
                r
            } else if group == 2 {
                x & !(1u8 << n)
            } else {
                x | (1u8 << n)
            };
            if reg == 6 {
                memory_bus.write_byte(hl, r);
            } else {
                self.set_r8(reg, r);
            }
        }
        cycles
    }
}

impl CPU {
    /// PUSH: SP moves down by two and `value` is written there, low byte first.
    pub fn op_push_stack(&mut self, memory_bus: &mut MemoryBus, value: u16)
        requires
            old(memory_bus).wf(),
            old(memory_bus).write_ok(add16w(old(self).sp, -2)),
            old(memory_bus).write_ok(inc16(add16w(old(self).sp, -2))),
        ensures
            final(memory_bus).wf(),
            *final(self) == (CPU { sp: add16w(old(self).sp, -2), ..*old(self) }),
            applied(
                *old(memory_bus),
                seq![(add16w(old(self).sp, -2), low_byte(value)), (inc16(add16w(old(self).sp, -2)), high_byte(value))],
                ImeChange::Keep,
                *final(memory_bus),
            ),
    {
        self.sp = self.sp.wrapping_sub(2);
        write_word(memory_bus, self.sp, value);
    }

    /// POP: the value at SP (low byte first); SP moves up by two.
    fn op_pop_stack(&mut self, memory_bus: &MemoryBus) -> (r: u16)
        requires
            memory_bus.wf(),
            pop_ok(*old(self), *memory_bus),
        ensures
            r == popped(*old(self), *memory_bus),
            *final(self) == (CPU { sp: add16w(old(self).sp, 2), ..*old(self) }),
    {
        let value = memory_bus.read_short(self.sp);
        self.sp = self.sp.wrapping_add(2);
        value
    }

    fn exec_return(&mut self, memory_bus: &MemoryBus, op: u8) -> (cycles: u8)
        requires
            memory_bus.wf(),
            0xC0 <= op <= 0xD8 && op % 8 == 0,
            conditional_return(*old(self), *memory_bus, op).ok,
        ensures
            *final(self) == conditional_return(*old(self), *memory_bus, op).cpu,
            cycles == conditional_return(*old(self), *memory_bus, op).cycles,
            conditional_return(*old(self), *memory_bus, op).writes.len() == 0 && conditional_return(*old(self), *memory_bus, op).ime == ImeChange::Keep,
    {
        proof {
            reveal(conditional_return);
        }
        if self.condition_holds((op - 0xC0) / 8) {
            let address = self.op_pop_stack(memory_bus);
            self.pc = address;
            20
        } else {
            8
        }
    }

    fn exec_high_and_sp(&mut self, memory_bus: &mut MemoryBus, op: u8) -> (cycles: u8)
        requires
            old(memory_bus).wf(),
            op == 0xE0 || op == 0xF0 || op == 0xE8 || op == 0xF8,
            high_and_sp(*old(self), *old(memory_bus), op).ok,
        ensures
            final(memory_bus).wf(),
            performs(high_and_sp(*old(self), *old(memory_bus), op), *old(memory_bus), *final(self), *final(memory_bus), cycles),
    {
        proof {
            reveal(high_and_sp);
        }
        let value = self.read_immediate_byte(memory_bus);
        if op == 0xE0 {
            memory_bus.write_byte(0xFF00 + value as u16, self.registers.a);
            12
        } else if op == 0xF0 {
            self.registers.a = memory_bus.read_byte(0xFF00 + value as u16);
            12
        } else {
            let (r, f) = add_sp(self.sp, value);
            if op == 0xE8 {
                self.sp = r;
                self.registers.f = f;
                16
            } else {
                self.registers.set_hl(r);
                self.registers.f = f;
                12
            }
        }
    }

    #[verifier::spinoff_prover]
    #[verifier::rlimit(100)]
    fn exec_stack3(&mut self, memory_bus: &mut MemoryBus, op: u8) -> (cycles: u8)
        requires
            old(memory_bus).wf(),
            op >= 0xC0 && (op % 16 == 1 || op % 16 == 5 || op % 16 == 9),
            stack3(*old(self), *old(memory_bus), op).ok,
        ensures
            final(memory_bus).wf(),
            performs(stack3(*old(self), *old(memory_bus), op), *old(memory_bus), *final(self), *final(memory_bus), cycles),
    {
        proof {
            reveal(stack3);
        }
        let i = (op - 0xC0) / 16;
        let col = op % 16;
        if col == 1 {
            let value = self.op_pop_stack(memory_bus);
            if i == 3 {
                self.registers.set_af(value);
            } else {
                self.set_rr(i, value);
            }
            12
        } else if col == 5 {
            let value = if i == 3 { self.registers.get_af() } else { self.get_rr(i) };
            self.op_push_stack(memory_bus, value);
            16
        } else if op == 0xC9 || op == 0xD9 {
            let address = self.op_pop_stack(memory_bus);
            self.pc = address;
            if op == 0xD9 {
                memory_bus.enabling_ime = true;
            }
            16
        } else if op == 0xE9 {
            self.pc = self.registers.get_hl();
            4
        } else {
            self.sp = self.registers.get_hl();
            8
        }
    }

    #[verifier::spinoff_prover]
    #[verifier::rlimit(100)]
    fn exec_jumps3(&mut self, memory_bus: &mut MemoryBus, op: u8) -> (cycles: u8)
        requires
            old(memory_bus).wf(),
            op >= 0xC0 && op != 0xCB,
            op % 16 == 2 || op % 16 == 10 || op % 16 == 3 || op % 16 == 11 || op % 16 == 4 || op % 16 == 12 || op % 16 == 13,
            jumps3(*old(self), *old(memory_bus), op).ok,
        ensures
            final(memory_bus).wf(),
            performs(jumps3(*old(self), *old(memory_bus), op), *old(memory_bus), *final(self), *final(memory_bus), cycles),
    {
        proof {
            reveal(jumps3);
        }
        let cc = (op - 0xC0) / 8;
        if op == 0xC3 || op == 0xCD || op == 0xC2 || op == 0xCA || op == 0xD2 || op == 0xDA || op == 0xC4
            || op == 0xCC || op == 0xD4 || op == 0xDC || op == 0xEA || op == 0xFA {
            let nn = self.read_immediate_short(memory_bus);
            if op == 0xC3 {
                self.pc = nn;
                16
            } else if op == 0xCD {
                let pc = self.pc;
                self.op_push_stack(memory_bus, pc);
                self.pc = nn;
                24
            } else if op == 0xC2 || op == 0xCA || op == 0xD2 || op == 0xDA {
                if self.condition_holds(cc) {
                    self.pc = nn;
                    16
                } else {
                    12
                }
            } else if op == 0xC4 || op == 0xCC || op == 0xD4 || op == 0xDC {
                if self.condition_holds(cc) {
                    let pc = self.pc;
                    self.op_push_stack(memory_bus, pc);
                    self.pc = nn;
                    24
                } else {
                    12
                }
            } else if op == 0xEA {
                memory_bus.write_byte(nn, self.registers.a);
                16
            } else {
                self.registers.a = memory_bus.read_byte(nn);
                16
            }
        } else if op == 0xE2 {
            memory_bus.write_byte(0xFF00 + self.registers.c as u16, self.registers.a);
            8
        } else if op == 0xF2 {
            self.registers.a = memory_bus.read_byte(0xFF00 + self.registers.c as u16);
            8
        } else if op == 0xF3 {
            memory_bus.interrupt_master_enable = false;
            4
        } else if op == 0xFB {
            memory_bus.enabling_ime = true;
            4
        } else {
            4
        }
    }

    #[verifier::spinoff_prover]
    #[verifier::rlimit(100)]
    fn exec_block3(&mut self, memory_bus: &mut MemoryBus, op: u8) -> (cycles: u8)
        requires
            old(memory_bus).wf(),
            op >= 0xC0 && op != 0xCB,
            block3(*old(self), *old(memory_bus), op).ok,
        ensures
            final(memory_bus).wf(),
            performs(block3(*old(self), *old(memory_bus), op), *old(memory_bus), *final(self), *final(memory_bus), cycles),
    {
        proof {
            reveal(block3);
        }
        let col = op % 16;
        if col == 0 || col == 8 {
            if op == 0xE0 || op == 0xF0 || op == 0xE8 || op == 0xF8 {
                self.exec_high_and_sp(memory_bus, op)
            } else {
                self.exec_return(memory_bus, op)
            }
        } else if col == 1 || col == 5 || col == 9 {
            self.exec_stack3(memory_bus, op)
        } else if col == 2 || col == 10 || col == 3 || col == 11 || col == 4 || col == 12 || col == 13 {
            self.exec_jumps3(memory_bus, op)
        } else if col == 6 || col == 14 {
            self.exec_alu_immediate(memory_bus, op)
        } else {
            self.exec_restart(memory_bus, op)
        }
    }

    fn exec_alu_immediate(&mut self, memory_bus: &MemoryBus, op: u8) -> (cycles: u8)
        requires
            memory_bus.wf(),
            op >= 0xC0 && (op % 16 == 6 || op % 16 == 14),
            alu_immediate(*old(self), *memory_bus, op).ok,
        ensures
            *final(self) == alu_immediate(*old(self), *memory_bus, op).cpu,
            cycles == alu_immediate(*old(self), *memory_bus, op).cycles,
            alu_immediate(*old(self), *memory_bus, op).writes.len() == 0 && alu_immediate(*old(self), *memory_bus, op).ime == ImeChange::Keep,
    {
        proof {
            reveal(alu_immediate);
        }
        let value = self.read_immediate_byte(memory_bus);
        let (r, f) = alu((op - 0xC0) / 8, self.registers.a, value, self.registers.f);
        self.registers.a = r;
        self.registers.f = f;
        8
    }

    fn exec_restart(&mut self, memory_bus: &mut MemoryBus, op: u8) -> (cycles: u8)
        requires
            old(memory_bus).wf(),
            op >= 0xC7 && (op % 16 == 7 || op % 16 == 15),
            restart(*old(self), *old(memory_bus), op).ok,
        ensures
            final(memory_bus).wf(),
            performs(restart(*old(self), *old(memory_bus), op), *old(memory_bus), *final(self), *final(memory_bus), cycles),
    {
        proof {
            reveal(restart);
        }
        let pc = self.pc;
        self.op_push_stack(memory_bus, pc);
        self.pc = (op - 0xC7) as u16;
        16
    }
}

impl CPU {
    /// Runs one instruction (or one halted wait) and gives the clock cycles it took.
    pub fn cycle(&mut self, memory_bus: &mut MemoryBus) -> (cycles: u8)
        requires
            old(memory_bus).wf(),
            step(*old(self), *old(memory_bus)).ok,
        ensures
            final(memory_bus).wf(),
            performs(step(*old(self), *old(memory_bus)), *old(memory_bus), *final(self), *final(memory_bus), cycles),
    {
        if !self.halted {
            let opcode = memory_bus.read_byte(self.pc);
            self.pc = self.pc.wrapping_add(1);
            if opcode <= 0x3F {
                self.exec_block0(memory_bus, opcode)
            } else if opcode <= 0x7F {
                self.exec_load_block(memory_bus, opcode)
            } else if opcode <= 0xBF {
                self.exec_alu_block(memory_bus, opcode)
            } else if opcode == 0xCB {
                self.exec_cb(memory_bus)
            } else {
                self.exec_block3(memory_bus, opcode)
            }
        } else {
            if memory_bus.interrupt_flags != 0 {
                self.halted = false;
            }
            4
        }
    }

    /// Lets a scheduled EI take effect, then services the highest-priority interrupt that is
    /// requested and enabled while interrupts are enabled: IME is cleared, PC is pushed, PC jumps
    /// to the handler, and the request flag is cleared.
    pub fn check_interrupts(&mut self, memory_bus: &mut MemoryBus)
        requires
            old(memory_bus).wf(),
            check_ok(*old(self), *old(memory_bus)),
        ensures
            final(memory_bus).wf(),
            ({
                let b1 = ime_latched(*old(memory_bus));
                match serviced(*old(memory_bus)) {
                    Some(i) => {
                        let sp = add16w(old(self).sp, -2);
                        &&& *final(self) == (CPU { sp, pc: vector(i), ..*old(self) })
                        &&& exists|mid: MemoryBus|
                            #![trigger pc_pushed(ime_cleared(ime_latched(*old(memory_bus))), add16w(old(self).sp, -2), old(self).pc, mid)]
                            pc_pushed(ime_cleared(b1), sp, old(self).pc, mid)
                                && *final(memory_bus) == (MemoryBus {
                                interrupt_flags: flags_byte(with_flag(flags_of_byte(b1.interrupt_flags), i, false)),
                                ..mid
                            })
                    },
                    None => *final(self) == *old(self) && *final(memory_bus) == b1,
                }
            }),
    {
        if memory_bus.enabling_ime {
            memory_bus.interrupt_master_enable = true;
            memory_bus.enabling_ime = false;
        }
        if memory_bus.interrupt_master_enable {
            let interrupt_flags = InterruptFlags::from(memory_bus.interrupt_flags);
            let interrupt_enable_register = memory_bus.interrupt_enable_register;
            if interrupt_flags.vblank && (interrupt_enable_register & 0x01) != 0 {
                self.service_interrupt(memory_bus, Interrupt::VBLANK);
            } else if interrupt_flags.lcd_stat && (interrupt_enable_register & 0x02) != 0 {
                self.service_interrupt(memory_bus, Interrupt::LCDSTAT);
            } else if interrupt_flags.timer && (interrupt_enable_register & 0x04) != 0 {
                self.service_interrupt(memory_bus, Interrupt::TIMER);
            } else if interrupt_flags.serial && (interrupt_enable_register & 0x08) != 0 {
                self.service_interrupt(memory_bus, Interrupt::SERIAL);
            } else if interrupt_flags.joypad && (interrupt_enable_register & 0x10) != 0 {
                self.service_interrupt(memory_bus, Interrupt::JOYPAD);
            }
        }
    }

    fn service_interrupt(&mut self, memory_bus: &mut MemoryBus, interrupt: Interrupt)
        requires
            old(memory_bus).wf(),
            old(memory_bus).write_ok(add16w(old(self).sp, -2)),
            old(memory_bus).write_ok(inc16(add16w(old(self).sp, -2))),
        ensures
            final(memory_bus).wf(),
            ({
                let sp = add16w(old(self).sp, -2);
                &&& *final(self) == (CPU { sp, pc: vector(interrupt), ..*old(self) })
                &&& exists|mid: MemoryBus|
                    #![trigger pc_pushed(ime_cleared(*old(memory_bus)), add16w(old(self).sp, -2), old(self).pc, mid)]
                    pc_pushed(ime_cleared(*old(memory_bus)), sp, old(self).pc, mid)
                        && *final(memory_bus) == (MemoryBus {
                        interrupt_flags: flags_byte(with_flag(flags_of_byte(old(memory_bus).interrupt_flags), interrupt, false)),
                        ..mid
                    })
            }),
    {
        let mut interrupts = InterruptFlags::from(memory_bus.interrupt_flags);
        memory_bus.interrupt_master_enable = false;
        let vector_address: u16 = match interrupt {
            Interrupt::VBLANK => 0x0040,
            Interrupt::LCDSTAT => 0x0048,
            Interrupt::TIMER => 0x0050,
            Interrupt::SERIAL => 0x0058,
            Interrupt::JOYPAD => 0x0060,
        };
        let pc = self.pc;
        let ghost b0 = *memory_bus;
        self.op_push_stack(memory_bus, pc);
        let ghost mid = *memory_bus;
        self.pc = vector_address;
        match interrupt {
            Interrupt::VBLANK => interrupts.vblank = false,
            Interrupt::LCDSTAT => interrupts.lcd_stat = false,
            Interrupt::TIMER => interrupts.timer = false,
            Interrupt::SERIAL => interrupts.serial = false,
            Interrupt::JOYPAD => interrupts.joypad = false,
        }
        memory_bus.interrupt_flags = u8::from(interrupts);
        assert(b0 == (ime_cleared(*old(memory_bus))));
        assert(pc_pushed(b0, add16w(old(self).sp, -2), pc, mid));
    }
}

/// Whether pushing at SP - 2 and SP - 1 succeeds.
fn push_ok(c: &CPU, memory_bus: &MemoryBus) -> (r: bool)
    requires
        memory_bus.wf(),
    ensures
        r == (memory_bus.write_ok(add16w(c.sp, -2)) && memory_bus.write_ok(inc16(add16w(c.sp, -2)))),
{
    let sp = c.sp.wrapping_sub(2);
    memory_bus.can_write(sp) && memory_bus.can_write(sp.wrapping_add(1))
}

/// Whether popping from SP succeeds.
fn pop_can_read(c: &CPU, memory_bus: &MemoryBus) -> (r: bool)
    requires
        memory_bus.wf(),
    ensures
        r == pop_ok(*c, *memory_bus),
{
    memory_bus.can_read(c.sp) && memory_bus.can_read(c.sp.wrapping_add(1))
}

fn control0_ok(c: &CPU, memory_bus: &MemoryBus, op: u8) -> (r: bool)
    requires
        memory_bus.wf(),
        op <= 0x3F && (op % 16 == 0 || op % 16 == 8),
    ensures
        r == control0(*c, *memory_bus, op).ok,
{
    proof {
        reveal(control0);
    }
    let pc = c.pc;
    if op == 0x00 {
        true
    } else if op == 0x10 {
        memory_bus.can_write(DIVIDER_REGISTER)
    } else if op == 0x08 {
        if !(memory_bus.can_read(pc) && memory_bus.can_read(pc.wrapping_add(1))) {
            false
        } else {
            let nn = crate::registers::make_pair(memory_bus.read_byte(pc.wrapping_add(1)), memory_bus.read_byte(pc));
            memory_bus.can_write(nn) && memory_bus.can_write(nn.wrapping_add(1))
        }
    } else {
        memory_bus.can_read(pc)
    }
}

fn memory0_ok(c: &CPU, memory_bus: &MemoryBus, op: u8) -> (r: bool)
    requires
        memory_bus.wf(),
        op <= 0x3F && (op % 16 == 2 || op % 16 == 10 || op % 8 == 4 || op % 8 == 5 || op % 8 == 6),
    ensures
        op % 16 == 2 || op % 16 == 10 ==> r == indirect0(*c, *memory_bus, op).ok,
        !(op % 16 == 2 || op % 16 == 10) ==> r == byte0(*c, *memory_bus, op).ok,
{
    proof {
        reveal(indirect0);
        reveal(byte0);
    }
    let col = op % 16;
    let hl = c.registers.get_hl();
    if col == 2 || col == 10 {
        let row = op / 16;
        let address = if row == 0 {
            c.registers.get_bc()
        } else if row == 1 {
            c.registers.get_de()
        } else {
            hl
        };
        if col == 2 {
            memory_bus.can_write(address)
        } else {
            memory_bus.can_read(address)
        }
    } else if op % 8 == 6 {
        memory_bus.can_read(c.pc) && (op / 8 != 6 || memory_bus.can_write(hl))
    } else {
        op / 8 != 6 || (memory_bus.can_read(hl) && memory_bus.can_write(hl))
    }
}

fn block0_ok(c: &CPU, memory_bus: &MemoryBus, op: u8) -> (r: bool)
    requires
        memory_bus.wf(),
        op <= 0x3F,
    ensures
        r == block0(*c, *memory_bus, op).ok,
{
    proof {
        reveal(block0);
    }
    let col = op % 16;
    if col == 0 || col == 8 {
        control0_ok(c, memory_bus, op)
    } else if col == 1 || col == 3 || col == 9 || col == 11 {
        proof {
            reveal(wide0);
        }
        col != 1 || (memory_bus.can_read(c.pc) && memory_bus.can_read(c.pc.wrapping_add(1)))
    } else if col == 2 || col == 10 || col == 4 || col == 5 || col == 12 || col == 13 || col == 6 || col == 14 {
        memory0_ok(c, memory_bus, op)
    } else {
        proof {
            reveal(accumulator0);
        }
        true
    }
}

fn cb_ok(c: &CPU, memory_bus: &MemoryBus) -> (r: bool)
    requires
        memory_bus.wf(),
    ensures
        r == cb_block(*c, *memory_bus).ok,
{
    proof {
        reveal(cb_block);
    }
    if !memory_bus.can_read(c.pc) {
        return false;
    }
    let cb = memory_bus.read_byte(c.pc);
    let hl = c.registers.get_hl();
    if cb % 8 != 6 {
        true
    } else if cb / 64 == 1 {
        memory_bus.can_read(hl)
    } else {
        memory_bus.can_read(hl) && memory_bus.can_write(hl)
    }
}

fn block3_ok(c: &CPU, memory_bus: &MemoryBus, op: u8) -> (r: bool)
    requires
        memory_bus.wf(),
        op >= 0xC0 && op != 0xCB,
    ensures
        r == block3(*c, *memory_bus, op).ok,
{
    proof {
        reveal(block3);
    }
    let col = op % 16;
    if col == 0 || col == 8 {
        row_ends_ok(c, memory_bus, op)
    } else if col == 1 || col == 5 || col == 9 {
        proof {
            reveal(stack3);
        }
        if col == 5 {
            push_ok(c, memory_bus)
        } else if col == 1 || op == 0xC9 || op == 0xD9 {
            pop_can_read(c, memory_bus)
        } else {
            true
        }
    } else if col == 6 || col == 14 {
        proof {
            reveal(alu_immediate);
        }
        memory_bus.can_read(c.pc)
    } else if col == 7 || col == 15 {
        proof {
            reveal(restart);
        }
        push_ok(c, memory_bus)
    } else {
        jumps3_ok(c, memory_bus, op)
    }
}

/// The access checks of LDH, ADD SP,e, LD HL,SP+e and the conditional returns.
fn row_ends_ok(c: &CPU, memory_bus: &MemoryBus, op: u8) -> (r: bool)
    requires
        memory_bus.wf(),
        op >= 0xC0 && (op % 16 == 0 || op % 16 == 8),
    ensures
        op == 0xE0 || op == 0xF0 || op == 0xE8 || op == 0xF8 ==> r == high_and_sp(*c, *memory_bus, op).ok,
        !(op == 0xE0 || op == 0xF0 || op == 0xE8 || op == 0xF8) ==> r == conditional_return(*c, *memory_bus, op).ok,
{
    proof {
        reveal(conditional_return);
        reveal(high_and_sp);
    }
    let pc = c.pc;
    if op == 0xE0 || op == 0xF0 {
        if !memory_bus.can_read(pc) {
            false
        } else {
            let address = 0xFF00 + memory_bus.read_byte(pc) as u16;
            if op == 0xE0 {
                memory_bus.can_write(address)
            } else {
                memory_bus.can_read(address)
            }
        }
    } else if op == 0xE8 || op == 0xF8 {
        memory_bus.can_read(pc)
    } else if c.condition_holds((op - 0xC0) / 8) {
        pop_can_read(c, memory_bus)
    } else {
        true
    }
}

/// The access checks of the jumps, calls, LD (C),A, LD (nn),A and their loads, DI and EI.
fn jumps3_ok(c: &CPU, memory_bus: &MemoryBus, op: u8) -> (r: bool)
    requires
        memory_bus.wf(),
        op >= 0xC0 && op != 0xCB,
        op % 16 == 2 || op % 16 == 10 || op % 16 == 3 || op % 16 == 11 || op % 16 == 4 || op % 16 == 12 || op % 16 == 13,
    ensures
        r == jumps3(*c, *memory_bus, op).ok,
{
    proof {
        reveal(jumps3);
    }
    let pc = c.pc;
    let imm16_can = memory_bus.can_read(pc) && memory_bus.can_read(pc.wrapping_add(1));
    if op == 0xE2 {
        memory_bus.can_write(0xFF00 + c.registers.c as u16)
    } else if op == 0xF2 {
        memory_bus.can_read(0xFF00 + c.registers.c as u16)
    } else if op == 0xC3 || op == 0xC2 || op == 0xCA || op == 0xD2 || op == 0xDA {
        imm16_can
    } else if op == 0xCD || op == 0xC4 || op == 0xCC || op == 0xD4 || op == 0xDC {
        let taken = op == 0xCD || c.condition_holds((op - 0xC0) / 8);
        if taken {
            imm16_can && push_ok(c, memory_bus)
        } else {
            imm16_can
        }
    } else if op == 0xEA || op == 0xFA {
        if !imm16_can {
            false
        } else {
            let nn = crate::registers::make_pair(memory_bus.read_byte(pc.wrapping_add(1)), memory_bus.read_byte(pc));
            if op == 0xEA {
                memory_bus.can_write(nn)
            } else {
                memory_bus.can_read(nn)
            }
        }
    } else {
        true
    }
}

impl CPU {
    /// Whether every memory access of the next instruction succeeds (the condition of `cycle`).
    pub fn step_ok(&self, memory_bus: &MemoryBus) -> (r: bool)
        requires
            memory_bus.wf(),
        ensures
            r == step(*self, *memory_bus).ok,
    {
        proof {
            reveal(load_block);
            reveal(alu_block);
        }
        if self.halted {
            return true;
        }
        if !memory_bus.can_read(self.pc) {
            return false;
        }
        let op = memory_bus.read_byte(self.pc);
        let c = CPU { pc: self.pc.wrapping_add(1), ..*self };
        let hl = self.registers.get_hl();
        if op <= 0x3F {
            block0_ok(&c, memory_bus, op)
        } else if op <= 0x7F {
            let dst = (op / 8) % 8;
            let src = op % 8;
            if op == 0x76 {
                true
            } else if dst == 6 {
                memory_bus.can_write(hl)
            } else if src == 6 {
                memory_bus.can_read(hl)
            } else {
                true
            }
        } else if op <= 0xBF {
            op % 8 != 6 || memory_bus.can_read(hl)
        } else if op == 0xCB {
            cb_ok(&c, memory_bus)
        } else {
            block3_ok(&c, memory_bus, op)
        }
    }

    /// Whether the stack writes of the next interrupt check succeed (the condition of
    /// `check_interrupts`).
    pub fn interrupt_check_ok(&self, memory_bus: &MemoryBus) -> (r: bool)
        requires
            memory_bus.wf(),
        ensures
            r == check_ok(*self, *memory_bus),
    {
        let ime = memory_bus.interrupt_master_enable || memory_bus.enabling_ime;
        if !ime {
            return true;
        }
        let f = InterruptFlags::from(memory_bus.interrupt_flags);
        let ie = memory_bus.interrupt_enable_register;
        let any = (f.vblank && ie & 0x01 != 0) || (f.lcd_stat && ie & 0x02 != 0) || (f.timer && ie & 0x04
            != 0) || (f.serial && ie & 0x08 != 0) || (f.joypad && ie & 0x10 != 0);
        !any || push_ok(self, memory_bus)
    }
}

/// What PUSH rr does.
proof fn lemma_push_effect(cpu: CPU, bus: MemoryBus, i: u8)
    requires
        i <= 3,
        !cpu.halted,
        bus.read_value(cpu.pc) == 0xC5 + 16 * i,
    ensures
        step(cpu, bus).cpu == (CPU { sp: add16w(cpu.sp, -2), ..cpu.advanced(1) }),
        step(cpu, bus).writes == seq![
            (add16w(cpu.sp, -2), low_byte(cpu.stack_rr(i))),
            (inc16(add16w(cpu.sp, -2)), high_byte(cpu.stack_rr(i))),
        ],
        step(cpu, bus).ime == ImeChange::Keep,
{
    reveal(block3);
    reveal(stack3);
    let op = bus.read_value(cpu.pc);
    assert(op >= 0xC0 && op % 16 == 5 && op != 0xCB);
    assert(((op - 0xC0) / 16) as u8 == i);
}

/// What POP rr does.
proof fn lemma_pop_effect(cpu: CPU, bus: MemoryBus, j: u8)
    requires
        j <= 3,
        !cpu.halted,
        bus.read_value(cpu.pc) == 0xC1 + 16 * j,
    ensures
        step(cpu, bus).cpu == (CPU { sp: add16w(cpu.sp, 2), ..cpu.advanced(1) }).with_stack_rr(j, popped(cpu, bus)),
{
    reveal(block3);
    reveal(stack3);
    let op = bus.read_value(cpu.pc);
    assert(op >= 0xC0 && op % 16 == 1 && op != 0xCB);
    assert(((op - 0xC0) / 16) as u8 == j);
}

/// A value pushed onto a stack in plain memory is what the next pop gives back: PUSH rr followed
/// by POP rr' copies rr into rr' and leaves SP where it was (into AF only from AF, since POP AF
/// drops the low nibble of F).
pub proof fn lemma_push_then_pop(
    cpu: CPU,
    bus: MemoryBus,
    c1: CPU,
    b1: MemoryBus,
    n1: u8,
    c2: CPU,
    b2: MemoryBus,
    n2: u8,
    i: u8,
    j: u8,
)
    requires
        bus.wf(),
        i <= 3,
        j <= 3,
        j == 3 ==> i == 3,
        !cpu.halted,
        bus.read_value(cpu.pc) == 0xC5 + 16 * i,
        performs(step(cpu, bus), bus, c1, b1, n1),
        !c1.halted,
        b1.read_value(c1.pc) == 0xC1 + 16 * j,
        performs(step(c1, b1), b1, c2, b2, n2),
        crate::memory_bus::is_plain_ram(add16w(cpu.sp, -2)),
        crate::memory_bus::is_plain_ram(inc16(add16w(cpu.sp, -2))),
    ensures
        c2.stack_rr(j) == cpu.stack_rr(i),
        c2.sp == cpu.sp,
{
    lemma_push_effect(cpu, bus, i);
    lemma_pop_effect(c1, b1, j);
    let sp = add16w(cpu.sp, -2);
    let value = cpu.stack_rr(i);
    let e = step(cpu, bus);
    let start = with_ime(bus, ImeChange::Keep);
    assert(start == bus);
    let mid = choose|mid: MemoryBus|
        mid.wf() && mid.written(&start, e.writes[0].0, e.writes[0].1) && b1.written(&mid, e.writes[1].0, e.writes[1].1);
    assert(sp.wrapping_add(1) == inc16(sp));
    crate::memory_bus::lemma_short_roundtrip(bus, mid, b1, sp, value);
    assert(popped(c1, b1) == value);
    crate::registers::lemma_pair_bytes(cpu.registers.a, flags_byte_of(cpu.registers.f), value);
    crate::registers::lemma_flags_roundtrip(cpu.registers.f);
    if j == 3 {
        assert(low_byte(value) == f_byte(cpu.registers.f));
        assert(crate::registers::flags_of_byte(low_byte(value)) == cpu.registers.f);
    }
}

/// The F register byte of a set of flags.
pub open spec fn flags_byte_of(f: FlagsRegister) -> u8 {
    f_byte(f)
}


/// CP compares A with an operand by a subtraction whose difference is thrown away: A is left as
/// it was, Z is set exactly when A equals the operand, C exactly when A is below it, H exactly
/// when the low nibble of A is below that of the operand, N is set, and the carry flag that came
/// in plays no part.
pub proof fn lemma_compare(a: u8, n: u8, f: FlagsRegister)
    ensures
        alu_result(7, a, n, f).0 == a,
        alu_result(7, a, n, f).1 == (FlagsRegister {
            zero: a == n,
            subtract: true,
            half_carry: a % 16 < n % 16,
            carry: a < n,
        }),
{
    assert(((a - n) % 256 == 0) <==> a == n) by {
        if a < n {
            assert((a - n) % 256 == a - n + 256);
        }
    }
}

/// CP d8 (opcode 0xFE) compares A with the byte after the opcode as `lemma_compare` says,
/// whatever the flags were, moves the program counter past that byte, writes nothing and takes
/// eight clocks.
pub proof fn lemma_compare_immediate(cpu: CPU, bus: MemoryBus)
    requires
        !cpu.halted,
        bus.read_value(cpu.pc) == 0xFE,
    ensures
        ({
            let n = bus.read_value(add16w(cpu.pc, 1));
            let e = step(cpu, bus);
            &&& e.cpu.registers == (Registers {
                f: FlagsRegister {
                    zero: cpu.registers.a == n,
                    subtract: true,
                    half_carry: cpu.registers.a % 16 < n % 16,
                    carry: cpu.registers.a < n,
                },
                ..cpu.registers
            })
            &&& e.cpu.pc == add16w(cpu.pc, 2)
            &&& e.writes == Seq::<(u16, u8)>::empty()
            &&& e.cycles == 8
        }),
{
    reveal(block3);
    reveal(alu_immediate);
    let c = cpu.advanced(1);
    lemma_compare(cpu.registers.a, bus.read_value(c.pc), cpu.registers.f);
    assert(add16w(c.pc, 1) == add16w(cpu.pc, 2));
}

/// CP r (opcodes 0xB8-0xBF but 0xBE) compares A with register `r` as `lemma_compare` says,
/// whatever the flags were, and takes four clocks.
pub proof fn lemma_compare_register(cpu: CPU, bus: MemoryBus)
    requires
        !cpu.halted,
        0xB8 <= bus.read_value(cpu.pc) <= 0xBF,
        bus.read_value(cpu.pc) != 0xBE,
    ensures
        ({
            let n = cpu.reg8((bus.read_value(cpu.pc) % 8) as u8);
            let e = step(cpu, bus);
            &&& e.cpu.registers == (Registers {
                f: FlagsRegister {
                    zero: cpu.registers.a == n,
                    subtract: true,
                    half_carry: cpu.registers.a % 16 < n % 16,
                    carry: cpu.registers.a < n,
                },
                ..cpu.registers
            })
            &&& e.cpu.pc == add16w(cpu.pc, 1)
            &&& e.writes == Seq::<(u16, u8)>::empty()
            &&& e.cycles == 4
        }),
{
    reveal(alu_block);
    let op = bus.read_value(cpu.pc);
    let c = cpu.advanced(1);
    assert(((op / 8) % 8) as u8 == 7);
    assert(c.reg8((op % 8) as u8) == cpu.reg8((op % 8) as u8));
    lemma_compare(cpu.registers.a, cpu.reg8((op % 8) as u8), cpu.registers.f);
}

/// The arithmetic ALU operations on A and an operand `v`, the carry flag `c` (0 or 1) taken in
/// only by ADC and SBC: ADD/ADC give (A + v + c) mod 256 with C on a carry out of bit 7 and H on
/// one out of bit 3; SUB/SBC give (A - v - c) mod 256 with C on a borrow and H on a borrow from
/// bit 4; Z tells a zero result and N a subtraction. AND, XOR and OR give the bitwise result with
/// Z on zero, C clear, and H set by AND alone.
pub proof fn lemma_alu_arithmetic(a: u8, v: u8, f: FlagsRegister)
    ensures
        ({
            let c: int = if f.carry { 1 } else { 0 };
            &&& alu_result(0, a, v, f) == (((a + v) % 256) as u8, FlagsRegister {
                zero: (a + v) % 256 == 0,
                subtract: false,
                half_carry: a % 16 + v % 16 > 15,
                carry: a + v > 255,
            })
            &&& alu_result(1, a, v, f) == (((a + v + c) % 256) as u8, FlagsRegister {
                zero: (a + v + c) % 256 == 0,
                subtract: false,
                half_carry: a % 16 + v % 16 + c > 15,
                carry: a + v + c > 255,
            })
            &&& alu_result(2, a, v, f) == (((a - v) % 256) as u8, FlagsRegister {
                zero: a == v,
                subtract: true,
                half_carry: a % 16 < v % 16,
                carry: a < v,
            })
            &&& alu_result(3, a, v, f) == (((a - v - c) % 256) as u8, FlagsRegister {
                zero: (a - v - c) % 256 == 0,
                subtract: true,
                half_carry: a % 16 < v % 16 + c,
                carry: a < v + c,
            })
            &&& alu_result(4, a, v, f) == (a & v, FlagsRegister { zero: a & v == 0, subtract: false, half_carry: true, carry: false })
            &&& alu_result(5, a, v, f) == (a ^ v, FlagsRegister { zero: a ^ v == 0, subtract: false, half_carry: false, carry: false })
            &&& alu_result(6, a, v, f) == (a | v, FlagsRegister { zero: a | v == 0, subtract: false, half_carry: false, carry: false })
        }),
{
    lemma_compare(a, v, f);
}

/// Interrupt priority: the interrupt serviced is one that IF requests and IE enables, and no
/// interrupt with a lower bit number is both requested and enabled; none is serviced exactly when
/// interrupts are disabled (after a pending EI takes effect) or nothing is both requested and
/// enabled.
pub proof fn lemma_interrupt_priority(bus: MemoryBus)
    ensures
        serviced(bus) matches Some(i) ==> {
            &&& ime_latched(bus).interrupt_master_enable
            &&& bus.interrupt_flags & interrupt_mask(i) != 0
            &&& bus.interrupt_enable_register & interrupt_mask(i) != 0
            &&& forall|j: Interrupt|
                #![trigger interrupt_mask(j)]
                interrupt_mask(j) < interrupt_mask(i) ==> !(bus.interrupt_flags & interrupt_mask(j) != 0
                    && bus.interrupt_enable_register & interrupt_mask(j) != 0)
        },
        serviced(bus) is None <==> (!ime_latched(bus).interrupt_master_enable || forall|j: Interrupt|
            #![trigger interrupt_mask(j)]
            !(bus.interrupt_flags & interrupt_mask(j) != 0 && bus.interrupt_enable_register & interrupt_mask(j) != 0)),
{
    let b1 = ime_latched(bus);
    assert(b1.interrupt_flags == bus.interrupt_flags && b1.interrupt_enable_register == bus.interrupt_enable_register);
    assert forall|j: Interrupt| #![trigger interrupt_mask(j)]
        (bus.interrupt_flags & interrupt_mask(j) != 0 && bus.interrupt_enable_register & interrupt_mask(j) != 0)
            == (flag_of(flags_of_byte(bus.interrupt_flags), j) && bus.interrupt_enable_register & interrupt_mask(j) != 0) by {
        match j {
            Interrupt::VBLANK => {},
            Interrupt::LCDSTAT => {},
            Interrupt::TIMER => {},
            Interrupt::SERIAL => {},
            Interrupt::JOYPAD => {},
        }
    }
    assert(interrupt_mask(Interrupt::VBLANK) == 1);
    assert(interrupt_mask(Interrupt::LCDSTAT) == 2);
    assert(interrupt_mask(Interrupt::TIMER) == 4);
    assert(interrupt_mask(Interrupt::SERIAL) == 8);
    assert(interrupt_mask(Interrupt::JOYPAD) == 16);
    assert forall|j: Interrupt| #![trigger interrupt_mask(j)]
        interrupt_mask(j) == 1 || interrupt_mask(j) == 2 || interrupt_mask(j) == 4 || interrupt_mask(j) == 8
            || interrupt_mask(j) == 16 by {
        match j {
            Interrupt::VBLANK => {},
            Interrupt::LCDSTAT => {},
            Interrupt::TIMER => {},
            Interrupt::SERIAL => {},
            Interrupt::JOYPAD => {},
        }
    }
    assert forall|j: Interrupt, k: Interrupt| #![trigger interrupt_mask(j), interrupt_mask(k)]
        interrupt_mask(j) == interrupt_mask(k) ==> j == k by {
        match j {
            Interrupt::VBLANK => {},
            Interrupt::LCDSTAT => {},
            Interrupt::TIMER => {},
            Interrupt::SERIAL => {},
            Interrupt::JOYPAD => {},
        }
    }
}

/// Servicing an interrupt jumps to its fixed handler: 0x0040 plus eight times the number of the
/// interrupt's bit in IF and IE (VBLANK 0x0040, LCD STAT 0x0048, TIMER 0x0050, SERIAL 0x0058,
/// JOYPAD 0x0060).
pub proof fn lemma_interrupt_vector(i: Interrupt)
    ensures
        vector(i) >= 0x40,
        (vector(i) - 0x40) % 8 == 0,
        interrupt_mask(i) as int == pow2(((vector(i) - 0x40) / 8) as nat),
{
    lemma2_to64();
}

} // verus!
