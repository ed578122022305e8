use vstd::prelude::*;

verus! {

// Bit of the internal divider counter that clocks TIMA, per TAC frequency select.
pub const FREQ_4096HZ_BIT: u16 = 9;
pub const FREQ_262144HZ_BIT: u16 = 3;
pub const FREQ_65536HZ_BIT: u16 = 5;
pub const FREQ_16384HZ_BIT: u16 = 7;

pub const TAC_ENABLED_MASK: u8 = 0x04;
pub const TAC_FREQUENCY_MASK: u8 = 0x03;

pub const TIMA_RELOAD_DELAY: u8 = 4;
pub const TMA_WRITE_WINDOW: u8 = 5;
pub const TIMA_OVERFLOW_VALUE: u8 = 0x00;
pub const CRITICAL_RELOAD_CYCLE: u8 = 2;
pub const DIV_REGISTER_SHIFT: u16 = 8;

/// The DIV/TIMA/TMA/TAC timer, clocked one T-cycle at a time.
pub struct Timer {
    pub internal_div_counter: u16,
    pub div: u8,
    pub tima: u8,
    pub tma: u8,
    pub tac: u8,
    pub enabled: bool,
    pub tima_reload_cycles: u8,
    pub tima_reload_value: u8,
    pub tma_write_window: u8,
    pub tima_just_reloaded: bool,
}

/// The counter bit that TIMA watches for the frequency bits of `tac`.
pub open spec fn bit_position(tac: u8) -> u16 {
    let f = tac & 0x03;
    if f == 0 {
        9
    } else if f == 1 {
        3
    } else if f == 2 {
        5
    } else {
        7
    }
}

/// Whether bit `pos` of the divider counter is set.
pub open spec fn counter_bit(counter: u16, pos: u16) -> bool {
    (counter >> pos) & 1 != 0
}

impl Timer {
    /// TIMA incremented by one; on overflow it reads 0 and a reload of TMA is scheduled.
    pub open spec fn incremented(self) -> (Timer, bool) {
        if self.tima == 255 {
            (
                Timer {
                    tima: 0,
                    tima_reload_cycles: 4,
                    tima_reload_value: self.tma,
                    tma_write_window: 5,
                    ..self
                },
                true,
            )
        } else {
            (Timer { tima: (self.tima + 1) as u8, ..self }, false)
        }
    }

    /// The timer after one T-cycle, and whether TIMA overflowed on it.
    pub open spec fn ticked(self) -> (Timer, bool) {
        let t1 = Timer { tima_just_reloaded: false, ..self };
        let t2 = if t1.tima_reload_cycles > 0 {
            if t1.tima_reload_cycles == 1 {
                Timer {
                    tima_reload_cycles: 0,
                    tima: t1.tima_reload_value,
                    tima_just_reloaded: true,
                    ..t1
                }
            } else {
                Timer { tima_reload_cycles: (t1.tima_reload_cycles - 1) as u8, ..t1 }
            }
        } else {
            t1
        };
        let t3 = if t2.tma_write_window > 0 {
            Timer { tma_write_window: (t2.tma_write_window - 1) as u8, ..t2 }
        } else {
            t2
        };
        let old_bit = t3.enabled && counter_bit(t3.internal_div_counter, bit_position(t3.tac));
        let c: u16 = if t3.internal_div_counter == 0xFFFF {
            0
        } else {
            (t3.internal_div_counter + 1) as u16
        };
        let t4 = Timer { internal_div_counter: c, div: (c >> 8) as u8, ..t3 };
        if t4.enabled && old_bit && !counter_bit(c, bit_position(t4.tac)) {
            t4.incremented()
        } else {
            (t4, false)
        }
    }

    /// The timer after `n` T-cycles, and whether TIMA overflowed on any of them.
    pub open spec fn run(self, n: nat) -> (Timer, bool)
        decreases n,
    {
        if n == 0 {
            (self, false)
        } else {
            let (a, x) = self.run((n - 1) as nat);
            let (b, y) = a.ticked();
            (b, x || y)
        }
    }

    /// The timer after a write to DIV: a set watched bit clocks TIMA once, then the counter clears.
    pub open spec fn div_reset(self) -> Timer {
        let t1 = if self.enabled && counter_bit(self.internal_div_counter, bit_position(self.tac)) {
            self.incremented().0
        } else {
            self
        };
        Timer { internal_div_counter: 0, div: 0, ..t1 }
    }

    /// The timer after a write to TAC, and whether TIMA overflowed on it.
    pub open spec fn tac_written(self, value: u8) -> (Timer, bool) {
        let old_bit = counter_bit(self.internal_div_counter, bit_position(self.tac));
        let t1 = Timer { tac: value, enabled: value & 0x04 != 0, ..self };
        if self.enabled {
            if t1.enabled {
                let new_bit = counter_bit(t1.internal_div_counter, bit_position(value));
                if old_bit && !new_bit {
                    t1.incremented()
                } else {
                    (t1, false)
                }
            } else if old_bit {
                t1.incremented()
            } else {
                (t1, false)
            }
        } else {
            (t1, false)
        }
    }

    /// The timer after a write to TMA.
    pub open spec fn tma_written(self, value: u8) -> Timer {
        let t1 = Timer { tma: value, ..self };
        if self.tma_write_window > 0 {
            if self.tima_reload_cycles > 0 {
                Timer { tima_reload_value: value, ..t1 }
            } else {
                Timer { tima: value, ..t1 }
            }
        } else {
            t1
        }
    }

    /// The timer after a write to TIMA: dropped on the cycle of a reload and on the
    /// critical reload cycle, otherwise taken and any pending reload cancelled.
    pub open spec fn tima_written(self, value: u8) -> Timer {
        if self.tima_just_reloaded {
            self
        } else if self.tima_reload_cycles > 0 {
            if self.tima_reload_cycles == 2 {
                self
            } else {
                Timer { tima: value, tima_reload_cycles: 0, ..self }
            }
        } else {
            Timer { tima: value, ..self }
        }
    }

    /// A stopped timer with every register cleared.
    pub fn new() -> (r: Timer)
        ensures
            r.internal_div_counter == 0 && r.div == 0 && r.tima == 0 && r.tma == 0 && r.tac == 0,
            !r.enabled && r.tima_reload_cycles == 0 && r.tima_reload_value == 0,
            r.tma_write_window == 0 && !r.tima_just_reloaded,
    {
        Timer {
            internal_div_counter: 0,
            div: 0,
            tima: 0,
            tma: 0,
            tac: 0,
            enabled: false,
            tima_reload_cycles: 0,
            tima_reload_value: 0,
            tma_write_window: 0,
            tima_just_reloaded: false,
        }
    }

    /// Handles a write to DIV.
    pub fn reset_div(&mut self)
        ensures
            *final(self) == old(self).div_reset(),
    {
        if self.enabled {
            let bit_position = self.get_tima_bit_position();
            let old_bit = (self.internal_div_counter >> bit_position) & 1 != 0;
            if old_bit {
                self.increment_tima();
            }
        }
        self.internal_div_counter = 0;
        self.div = 0;
    }

    /// Handles a write to TAC; returns whether TIMA overflowed because of it.
    pub fn set_tac(&mut self, value: u8) -> (interrupt: bool)
        ensures
            (*final(self), interrupt) == old(self).tac_written(value),
    {
        let old_enabled = self.enabled;
        let old_bit_position = self.get_tima_bit_position();
        self.tac = value;
        self.enabled = (value & TAC_ENABLED_MASK) != 0;
        let mut interrupt = false;
        if old_enabled {
            let old_bit = (self.internal_div_counter >> old_bit_position) & 1 != 0;
            if self.enabled {
                let new_bit_position = self.get_tima_bit_position();
                let new_bit = (self.internal_div_counter >> new_bit_position) & 1 != 0;
                if old_bit && !new_bit {
                    if self.increment_tima() {
                        interrupt = true;
                    }
                }
            } else {
                if old_bit {
                    if self.increment_tima() {
                        interrupt = true;
                    }
                }
            }
        }
        interrupt
    }

    /// The counter bit that TIMA currently watches.
    pub fn get_tima_bit_position(&self) -> (r: u16)
        ensures
            r == bit_position(self.tac),
    {
        let f = self.tac & TAC_FREQUENCY_MASK;
        if f == 0 {
            FREQ_4096HZ_BIT
        } else if f == 1 {
            FREQ_262144HZ_BIT
        } else if f == 2 {
            FREQ_65536HZ_BIT
        } else {
            FREQ_16384HZ_BIT
        }
    }

    /// Increments TIMA; returns whether it overflowed.
    pub fn increment_tima(&mut self) -> (overflow: bool)
        ensures
            (*final(self), overflow) == old(self).incremented(),
    {
        if self.tima == 255 {
            self.tima = TIMA_OVERFLOW_VALUE;
            self.tima_reload_cycles = TIMA_RELOAD_DELAY;
            self.tima_reload_value = self.tma;
            self.tma_write_window = TMA_WRITE_WINDOW;
            true
        } else {
            self.tima = self.tima + 1;
            false
        }
    }

    /// Handles a write to TMA.
    pub fn write_tma(&mut self, value: u8)
        ensures
            *final(self) == old(self).tma_written(value),
    {
        self.tma = value;
        if self.tma_write_window > 0 {
            if self.tima_reload_cycles > 0 {
                self.tima_reload_value = value;
            } else {
                self.tima = value;
            }
        }
    }

    /// Advances the timer by one T-cycle; returns whether TIMA overflowed.
    pub fn tick(&mut self) -> (interrupt: bool)
        ensures
            (*final(self), interrupt) == old(self).ticked(),
    {
        self.tima_just_reloaded = false;
        if self.tima_reload_cycles > 0 {
            self.tima_reload_cycles = self.tima_reload_cycles - 1;
            if self.tima_reload_cycles == 0 {
                self.tima = self.tima_reload_value;
                self.tima_just_reloaded = true;
            }
        }
        if self.tma_write_window > 0 {
            self.tma_write_window = self.tma_write_window - 1;
        }
        let old_bit = if self.enabled {
            let bit_position = self.get_tima_bit_position();
            (self.internal_div_counter >> bit_position) & 1 != 0
        } else {
            false
        };
        self.internal_div_counter = self.internal_div_counter.wrapping_add(1);
        self.div = (self.internal_div_counter >> DIV_REGISTER_SHIFT) as u8;
        let mut interrupt = false;
        if self.enabled {
            let bit_position = self.get_tima_bit_position();
            let new_bit = (self.internal_div_counter >> bit_position) & 1 != 0;
            if old_bit && !new_bit {
                if self.increment_tima() {
                    interrupt = true;
                }
            }
        }
        interrupt
    }

    /// Advances the timer by `cycles` T-cycles; returns whether TIMA overflowed on any of them.
    pub fn cycle(&mut self, cycles: u8) -> (interrupt: bool)
        ensures
            (*final(self), interrupt) == old(self).run(cycles as nat),
    {
        let mut interrupt = false;
        let mut i: u8 = 0;
        while i < cycles
            invariant
                i <= cycles,
                (*self, interrupt) == old(self).run(i as nat),
            decreases cycles - i,
        {
            if self.tick() {
                interrupt = true;
            }
            i = i + 1;
        }
        interrupt
    }

    /// Handles a write to TIMA.
    pub fn write_tima(&mut self, value: u8)
        ensures
            *final(self) == old(self).tima_written(value),
    {
        if self.tima_just_reloaded {
            return;
        }
        if self.tima_reload_cycles > 0 {
            if self.tima_reload_cycles == CRITICAL_RELOAD_CYCLE {
                return;
            } else {
                self.tima = value;
                self.tima_reload_cycles = 0;
                return;
            }
        }
        self.tima = value;
    }
}

/// DIV always reads the upper byte of the internal counter: each timer operation keeps it so.
pub proof fn lemma_div_tracks_counter(t: Timer, value: u8)
    requires
        t.div == (t.internal_div_counter >> 8u16) as u8,
    ensures
        t.ticked().0.div == (t.ticked().0.internal_div_counter >> 8u16) as u8,
        t.div_reset().div == (t.div_reset().internal_div_counter >> 8u16) as u8,
        t.tac_written(value).0.div == (t.tac_written(value).0.internal_div_counter >> 8u16) as u8,
        t.tma_written(value).div == (t.tma_written(value).internal_div_counter >> 8u16) as u8,
        t.tima_written(value).div == (t.tima_written(value).internal_div_counter >> 8u16) as u8,
{
    assert((0u16 >> 8u16) as u8 == 0) by (bit_vector);
}

} // verus!
