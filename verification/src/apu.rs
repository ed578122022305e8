use vstd::prelude::*;

verus! {

/// Whether duty step `step` (0-7) of duty pattern `duty` (0-3: 12.5%, 25%, 50%, 75%) is high.
pub open spec fn duty_high(duty: u8, step: u8) -> bool {
    if duty == 0 {
        step == 7
    } else if duty == 1 {
        step == 0 || step == 7
    } else if duty == 2 {
        step == 0 || step >= 5
    } else {
        1 <= step <= 6
    }
}

/// The noise divisor of a divisor code (NR43 bits 0-2).
pub open spec fn divisor_of(code: u8) -> u16 {
    if code == 0 {
        8
    } else {
        (code * 16) as u16
    }
}

/// The duty waveform bit at a step.
pub fn duty_bit(duty: u8, step: u8) -> (r: u8)
    ensures
        r == (if duty_high(duty, step) { 1u8 } else { 0u8 }),
{
    let high = if duty == 0 {
        step == 7
    } else if duty == 1 {
        step == 0 || step == 7
    } else if duty == 2 {
        step == 0 || step >= 5
    } else {
        1 <= step && step <= 6
    };
    if high {
        1
    } else {
        0
    }
}

/// The noise divisor of a divisor code.
pub fn divisor(code: u8) -> (r: u16)
    requires
        code <= 7,
    ensures
        r == divisor_of(code),
{
    if code == 0 {
        8
    } else {
        code as u16 * 16
    }
}

/// A length timer: counts down at 256 Hz while enabled and silences its channel at zero.
#[derive(Clone, Copy, PartialEq, Eq, Structural)]
pub struct LengthCounter {
    pub counter: u16,
    pub enabled: bool,
}

impl LengthCounter {
    /// The timer after one tick, and whether it just reached zero.
    pub open spec fn ticked(self) -> (LengthCounter, bool) {
        if self.enabled && self.counter > 0 {
            (LengthCounter { counter: (self.counter - 1) as u16, ..self }, self.counter == 1)
        } else {
            (self, false)
        }
    }

    pub fn new() -> (r: Self)
        ensures
            r == (LengthCounter { counter: 0, enabled: false }),
    {
        LengthCounter { counter: 0, enabled: false }
    }

    /// One tick; true when the counter just reached zero.
    pub fn tick(&mut self) -> (r: bool)
        ensures
            (*final(self), r) == old(self).ticked(),
    {
        if self.enabled && self.counter > 0 {
            self.counter = self.counter - 1;
            self.counter == 0
        } else {
            false
        }
    }
}

/// A volume envelope (NRx2).
#[derive(Clone, Copy, PartialEq, Eq, Structural)]
pub struct Envelope {
    pub initial_volume: u8,
    pub direction: bool,
    pub period: u8,
    pub current_volume: u8,
    pub timer: u8,
}

impl Envelope {
    /// The envelope after one 64 Hz tick: every `period` ticks the volume moves one step
    /// towards 15 (increasing) or 0 (decreasing); period 0 stops it.
    pub open spec fn ticked(self) -> Envelope {
        if self.period == 0 {
            self
        } else {
            let timer = if self.timer > 0 { (self.timer - 1) as u8 } else { 0u8 };
            if timer == 0 {
                let volume = if self.direction && self.current_volume < 15 {
                    (self.current_volume + 1) as u8
                } else if !self.direction && self.current_volume > 0 {
                    (self.current_volume - 1) as u8
                } else {
                    self.current_volume
                };
                Envelope { timer: self.period, current_volume: volume, ..self }
            } else {
                Envelope { timer, ..self }
            }
        }
    }

    pub fn new() -> (r: Self)
        ensures
            r == (Envelope { initial_volume: 0, direction: false, period: 0, current_volume: 0, timer: 0 }),
    {
        Envelope { initial_volume: 0, direction: false, period: 0, current_volume: 0, timer: 0 }
    }

    pub fn tick(&mut self)
        ensures
            *final(self) == old(self).ticked(),
    {
        if self.period == 0 {
            return ;
        }
        if self.timer > 0 {
            self.timer = self.timer - 1;
        }
        if self.timer == 0 {
            self.timer = self.period;
            if self.direction && self.current_volume < 15 {
                self.current_volume = self.current_volume + 1;
            } else if !self.direction && self.current_volume > 0 {
                self.current_volume = self.current_volume - 1;
            }
        }
    }
}

/// The frequency sweep of channel 1 (NR10).
#[derive(Clone, Copy, PartialEq, Eq, Structural)]
pub struct Sweep {
    pub period: u8,
    pub direction: bool,
    pub shift: u8,
    pub shadow_frequency: u16,
    pub enabled: bool,
    pub timer: u8,
}

/// The next sweep frequency from the shadow frequency: shifted right by `shift` and then
/// subtracted (direction set) or added.
pub open spec fn sweep_target(shadow: u16, shift: u8, direction: bool) -> int {
    let delta = (shadow >> (shift as u16)) as int;
    if direction {
        shadow - delta
    } else {
        shadow + delta
    }
}

/// The shadow frequency shifted right by the sweep shift.
fn sweep_delta(shadow: u16, shift: u8) -> (r: u16)
    requires
        shift <= 7,
    ensures
        r == shadow >> (shift as u16),
        r <= shadow,
{
    let s = shift as u16;
    assert((shadow >> s) <= shadow) by (bit_vector);
    shadow >> s
}

impl Sweep {
    pub open spec fn wf(&self) -> bool {
        self.shift <= 7 && self.shadow_frequency <= 2047
    }

    /// One 128 Hz tick with the channel frequency: the sweep, the new channel frequency, and
    /// whether the computed frequency overflowed 2047 (which silences the channel).
    pub open spec fn ticked(self, frequency: u16) -> (Sweep, u16, bool) {
        let timer = if self.timer > 0 { (self.timer - 1) as u8 } else { 0u8 };
        if timer != 0 {
            (Sweep { timer, ..self }, frequency, false)
        } else {
            let s = Sweep { timer: if self.period == 0 { 8u8 } else { self.period }, ..self };
            if !s.enabled || s.period == 0 {
                (s, frequency, false)
            } else {
                let target = sweep_target(s.shadow_frequency, s.shift, s.direction);
                if target > 2047 {
                    (s, frequency, true)
                } else if s.shift > 0 {
                    (Sweep { shadow_frequency: target as u16, ..s }, target as u16, false)
                } else {
                    (s, frequency, false)
                }
            }
        }
    }

    pub fn new() -> (r: Self)
        ensures
            r == (Sweep { period: 0, direction: false, shift: 0, shadow_frequency: 0, enabled: false, timer: 0 }),
            r.wf(),
    {
        Sweep { period: 0, direction: false, shift: 0, shadow_frequency: 0, enabled: false, timer: 0 }
    }

    /// One tick; updates `frequency` when the sweep moves it, true on overflow.
    pub fn tick(&mut self, frequency: &mut u16) -> (r: bool)
        requires
            old(self).wf(),
        ensures
            (*final(self), *final(frequency), r) == old(self).ticked(*old(frequency)),
            final(self).wf(),
    {
        if self.timer > 0 {
            self.timer = self.timer - 1;
        }
        if self.timer != 0 {
            return false;
        }
        self.timer = if self.period == 0 { 8 } else { self.period };
        if !self.enabled || self.period == 0 {
            return false;
        }
        let delta = sweep_delta(self.shadow_frequency, self.shift);
        let new_frequency = if self.direction {
            self.shadow_frequency - delta
        } else {
            self.shadow_frequency + delta
        };
        if new_frequency > 2047 {
            return true;
        }
        if self.shift > 0 {
            self.shadow_frequency = new_frequency;
            *frequency = new_frequency;
        }
        false
    }
}

/// A square wave channel (1 with a sweep, 2 without).
#[derive(Clone, Copy, PartialEq, Eq, Structural)]
pub struct SquareChannel {
    pub enabled: bool,
    pub duty: u8,
    pub duty_step: u8,
    pub frequency: u16,
    pub frequency_timer: u16,
    pub length: LengthCounter,
    pub envelope: Envelope,
    pub sweep: Option<Sweep>,
}

/// A square channel at power-on, with a sweep unit when `sweep_required`.
pub open spec fn square_init(sweep_required: bool) -> SquareChannel {
    SquareChannel {
        enabled: false,
        duty: 0,
        duty_step: 0,
        frequency: 0,
        frequency_timer: 0,
        length: LengthCounter { counter: 0, enabled: false },
        envelope: Envelope { initial_volume: 0, direction: false, period: 0, current_volume: 0, timer: 0 },
        sweep: if sweep_required {
            Some(Sweep { period: 0, direction: false, shift: 0, shadow_frequency: 0, enabled: false, timer: 0 })
        } else {
            None
        },
    }
}

impl SquareChannel {
    /// The channel after its length timer ticks; reaching zero turns it off.
    pub open spec fn length_ticked(self) -> SquareChannel {
        let (l, z) = self.length.ticked();
        SquareChannel { length: l, enabled: self.enabled && !z, ..self }
    }

    pub fn tick_length(&mut self)
        ensures
            *final(self) == old(self).length_ticked(),
    {
        if self.length.tick() {
            self.enabled = false;
        }
    }

    pub open spec fn wf(&self) -> bool {
        &&& self.duty <= 3
        &&& self.duty_step <= 7
        &&& self.frequency <= 2047
        &&& self.envelope.current_volume <= 15
        &&& self.envelope.initial_volume <= 15
        &&& self.sweep matches Some(s) ==> s.wf()
    }

    /// The DAC is on when NRx2 has a volume or an increasing envelope.
    pub open spec fn dac(&self) -> bool {
        self.envelope.initial_volume != 0 || self.envelope.direction
    }

    /// The channel's current digital output, 0 to 15.
    pub open spec fn output(&self) -> u8 {
        if !self.enabled {
            0
        } else if duty_high(self.duty, self.duty_step) {
            self.envelope.current_volume
        } else {
            0
        }
    }

    /// The channel after one clock of its frequency timer.
    pub open spec fn stepped(self) -> SquareChannel {
        let timer = if self.frequency_timer > 0 { (self.frequency_timer - 1) as u16 } else { 0u16 };
        if timer == 0 {
            SquareChannel {
                frequency_timer: ((2048 - self.frequency) * 4) as u16,
                duty_step: ((self.duty_step + 1) % 8) as u8,
                ..self
            }
        } else {
            SquareChannel { frequency_timer: timer, ..self }
        }
    }

    /// The channel after a trigger (NRx4 bit 7); nothing happens while the DAC is off.
    pub open spec fn triggered(self) -> SquareChannel {
        if !self.dac() {
            self
        } else {
            let env = Envelope {
                current_volume: self.envelope.initial_volume,
                timer: if self.envelope.period == 0 { 8u8 } else { self.envelope.period },
                ..self.envelope
            };
            let c = SquareChannel {
                enabled: true,
                length: if self.length.counter == 0 {
                    LengthCounter { counter: 64, ..self.length }
                } else {
                    self.length
                },
                frequency_timer: ((2048 - self.frequency) * 4) as u16,
                envelope: env,
                ..self
            };
            match self.sweep {
                Some(s) => {
                    let s2 = Sweep {
                        shadow_frequency: self.frequency,
                        timer: if s.period == 0 { 8u8 } else { s.period },
                        enabled: s.period != 0 || s.shift != 0,
                        ..s
                    };
                    let overflow = s2.shift > 0 && sweep_target(s2.shadow_frequency, s2.shift, s2.direction) > 2047;
                    SquareChannel { sweep: Some(s2), enabled: !overflow, ..c }
                },
                None => c,
            }
        }
    }

    pub fn new(sweep_required: bool) -> (r: SquareChannel)
        ensures
            r == square_init(sweep_required),
            r.wf(),
    {
        let sweep: Option<Sweep> = if sweep_required { Some(Sweep::new()) } else { None };
        SquareChannel {
            enabled: false,
            duty: 0,
            duty_step: 0,
            frequency: 0,
            frequency_timer: 0,
            length: LengthCounter::new(),
            envelope: Envelope::new(),
            sweep,
        }
    }

    /// One clock of the frequency timer: at zero it reloads and the duty step advances.
    pub fn step(&mut self)
        requires
            old(self).wf(),
        ensures
            *final(self) == old(self).stepped(),
            final(self).wf(),
    {
        if self.frequency_timer > 0 {
            self.frequency_timer = self.frequency_timer - 1;
        }
        if self.frequency_timer == 0 {
            self.frequency_timer = (2048 - self.frequency) * 4;
            self.duty_step = (self.duty_step + 1) % 8;
        }
    }

    pub fn amplitude(&self) -> (r: u8)
        requires
            self.wf(),
        ensures
            r == self.output(),
    {
        if !self.enabled {
            return 0;
        }
        duty_bit(self.duty, self.duty_step) * self.envelope.current_volume
    }

    pub fn dac_on(&self) -> (r: bool)
        ensures
            r == self.dac(),
    {
        self.envelope.initial_volume != 0 || self.envelope.direction
    }

    pub fn trigger(&mut self)
        requires
            old(self).wf(),
        ensures
            *final(self) == old(self).triggered(),
            final(self).wf(),
    {
        if !self.dac_on() {
            return ;
        }
        self.enabled = true;
        if self.length.counter == 0 {
            self.length.counter = 64;
        }
        self.frequency_timer = (2048 - self.frequency) * 4;
        self.envelope.current_volume = self.envelope.initial_volume;
        self.envelope.timer = if self.envelope.period == 0 { 8 } else { self.envelope.period };
        match self.sweep {
            Some(s) => {
                let mut sweep = s;
                sweep.shadow_frequency = self.frequency;
                sweep.timer = if sweep.period == 0 { 8 } else { sweep.period };
                sweep.enabled = sweep.period != 0 || sweep.shift != 0;
                if sweep.shift > 0 {
                    let delta = sweep_delta(sweep.shadow_frequency, sweep.shift);
                    let candidate = if sweep.direction {
                        sweep.shadow_frequency - delta
                    } else {
                        sweep.shadow_frequency + delta
                    };
                    if candidate > 2047 {
                        self.enabled = false;
                    }
                }
                self.sweep = Some(sweep);
            },
            None => {},
        }
    }
}

/// The wave channel (channel 3): 32 four-bit samples from wave RAM.
#[derive(Clone, Copy)]
pub struct WaveChannel {
    pub enabled: bool,
    pub dac_enabled: bool,
    pub length: LengthCounter,
    pub volume_shift: u8,
    pub frequency: u16,
    pub frequency_timer: u16,
    pub position: u8,
    pub wave_ram: [u8; 16],
}

/// The right shift that a wave volume code (NR32 bits 5-6) applies: mute, 100%, 50%, 25%.
pub open spec fn wave_shift(volume_shift: u8) -> u8 {
    if volume_shift == 1 {
        0
    } else if volume_shift == 2 {
        1
    } else if volume_shift == 3 {
        2
    } else {
        4
    }
}

impl WaveChannel {
    /// The channel after its length timer ticks; reaching zero turns it off.
    pub open spec fn length_ticked(self) -> WaveChannel {
        let (l, z) = self.length.ticked();
        WaveChannel { length: l, enabled: self.enabled && !z, ..self }
    }

    pub fn tick_length(&mut self)
        ensures
            *final(self) == old(self).length_ticked(),
    {
        if self.length.tick() {
            self.enabled = false;
        }
    }

    pub open spec fn wf(&self) -> bool {
        self.frequency <= 2047 && self.position <= 31
    }

    /// The current four-bit sample, after the volume shift; 0 while off.
    pub open spec fn output(&self) -> u8 {
        if !self.enabled || !self.dac_enabled {
            0
        } else {
            let byte = self.wave_ram@[(self.position / 2) as int];
            let raw = if self.position % 2 == 0 { byte >> 4u8 } else { byte & 0x0Fu8 };
            (raw >> wave_shift(self.volume_shift)) as u8
        }
    }

    pub open spec fn stepped(self) -> WaveChannel {
        let timer = if self.frequency_timer > 0 { (self.frequency_timer - 1) as u16 } else { 0u16 };
        if timer == 0 {
            WaveChannel {
                frequency_timer: ((2048 - self.frequency) * 2) as u16,
                position: ((self.position + 1) % 32) as u8,
                ..self
            }
        } else {
            WaveChannel { frequency_timer: timer, ..self }
        }
    }

    pub open spec fn triggered(self) -> WaveChannel {
        if !self.dac_enabled {
            self
        } else {
            WaveChannel {
                enabled: true,
                length: if self.length.counter == 0 {
                    LengthCounter { counter: 256, ..self.length }
                } else {
                    self.length
                },
                frequency_timer: ((2048 - self.frequency) * 2) as u16,
                position: 0,
                ..self
            }
        }
    }

    /// A silent wave channel with blank wave RAM.
    pub fn new() -> (r: WaveChannel)
        ensures
            !r.enabled && !r.dac_enabled && r.length == LengthCounter::new_spec(),
            r.volume_shift == 0 && r.frequency == 0 && r.frequency_timer == 0 && r.position == 0,
            r.wave_ram@ == Seq::new(16, |i: int| 0u8),
            r.wf(),
    {
        let wave_ram = [0u8; 16];
        assert(wave_ram@ =~= Seq::new(16, |i: int| 0u8));
        WaveChannel {
            enabled: false,
            dac_enabled: false,
            length: LengthCounter::new(),
            volume_shift: 0,
            frequency: 0,
            frequency_timer: 0,
            position: 0,
            wave_ram,
        }
    }

    pub fn step(&mut self)
        requires
            old(self).wf(),
        ensures
            *final(self) == old(self).stepped(),
            final(self).wf(),
    {
        if self.frequency_timer > 0 {
            self.frequency_timer = self.frequency_timer - 1;
        }
        if self.frequency_timer == 0 {
            self.frequency_timer = (2048 - self.frequency) * 2;
            self.position = (self.position + 1) % 32;
        }
    }

    pub fn amplitude(&self) -> (r: u8)
        requires
            self.wf(),
        ensures
            r == self.output(),
    {
        if !self.enabled || !self.dac_enabled {
            return 0;
        }
        let byte = self.wave_ram[(self.position / 2) as usize];
        let raw = if self.position % 2 == 0 { byte >> 4u8 } else { byte & 0x0F };
        let shift: u8 = if self.volume_shift == 1 {
            0
        } else if self.volume_shift == 2 {
            1
        } else if self.volume_shift == 3 {
            2
        } else {
            4
        };
        raw >> shift
    }

    pub fn trigger(&mut self)
        requires
            old(self).wf(),
        ensures
            *final(self) == old(self).triggered(),
            final(self).wf(),
    {
        if !self.dac_enabled {
            return ;
        }
        self.enabled = true;
        if self.length.counter == 0 {
            self.length.counter = 256;
        }
        self.frequency_timer = (2048 - self.frequency) * 2;
        self.position = 0;
    }
}

impl LengthCounter {
    pub open spec fn new_spec() -> LengthCounter {
        LengthCounter { counter: 0, enabled: false }
    }
}

/// The noise channel (channel 4): a linear feedback shift register.
#[derive(Clone, Copy, PartialEq, Eq, Structural)]
pub struct NoiseChannel {
    pub enabled: bool,
    pub length: LengthCounter,
    pub envelope: Envelope,
    pub clock_shift: u8,
    pub lfsr_width_mode: bool,
    pub divisor_code: u8,
    pub lfsr: u16,
    pub frequency_timer: u16,
}

/// The shift register after one clock: bits 0 and 1 are XORed, the register moves right, and
/// the result enters bit 14 (and bit 6 in 7-bit mode).
pub open spec fn lfsr_next(lfsr: u16, width_mode: bool) -> u16 {
    let bit = ((lfsr & 1u16) ^ ((lfsr >> 1u16) & 1u16)) as u16;
    let shifted = ((lfsr >> 1u16) | (bit << 14u16)) as u16;
    if width_mode {
        ((shifted & !(1u16 << 6u16)) | (bit << 6u16)) as u16
    } else {
        shifted
    }
}

/// A silent noise channel.
pub open spec fn noise_init() -> NoiseChannel {
    NoiseChannel {
        enabled: false,
        length: LengthCounter { counter: 0, enabled: false },
        envelope: Envelope { initial_volume: 0, direction: false, period: 0, current_volume: 0, timer: 0 },
        clock_shift: 0,
        lfsr_width_mode: false,
        divisor_code: 0,
        lfsr: 0,
        frequency_timer: 0,
    }
}

impl NoiseChannel {
    /// The channel after its length timer ticks; reaching zero turns it off.
    pub open spec fn length_ticked(self) -> NoiseChannel {
        let (l, z) = self.length.ticked();
        NoiseChannel { length: l, enabled: self.enabled && !z, ..self }
    }

    pub fn tick_length(&mut self)
        ensures
            *final(self) == old(self).length_ticked(),
    {
        if self.length.tick() {
            self.enabled = false;
        }
    }

    pub open spec fn wf(&self) -> bool {
        &&& self.clock_shift <= 15
        &&& self.divisor_code <= 7
        &&& self.envelope.current_volume <= 15
        &&& self.envelope.initial_volume <= 15
    }

    pub open spec fn dac(&self) -> bool {
        self.envelope.initial_volume != 0 || self.envelope.direction
    }

    /// The period the frequency timer reloads with: the divisor shifted left by the clock shift.
    pub open spec fn period(&self) -> u16 {
        (divisor_of(self.divisor_code) << (self.clock_shift as u16)) as u16
    }

    /// The current output: the volume while bit 0 of the register is clear.
    pub open spec fn output(&self) -> u8 {
        if !self.enabled {
            0
        } else if self.lfsr & 1 == 0 {
            self.envelope.current_volume
        } else {
            0
        }
    }

    pub open spec fn stepped(self) -> NoiseChannel {
        let timer = if self.frequency_timer > 0 { (self.frequency_timer - 1) as u16 } else { 0u16 };
        if timer == 0 {
            NoiseChannel {
                frequency_timer: self.period(),
                lfsr: lfsr_next(self.lfsr, self.lfsr_width_mode),
                ..self
            }
        } else {
            NoiseChannel { frequency_timer: timer, ..self }
        }
    }

    pub open spec fn triggered(self) -> NoiseChannel {
        if !self.dac() {
            self
        } else {
            NoiseChannel {
                enabled: true,
                length: if self.length.counter == 0 {
                    LengthCounter { counter: 64, ..self.length }
                } else {
                    self.length
                },
                frequency_timer: self.period(),
                lfsr: 0x7FFF,
                envelope: Envelope {
                    current_volume: self.envelope.initial_volume,
                    timer: if self.envelope.period == 0 { 8u8 } else { self.envelope.period },
                    ..self.envelope
                },
                ..self
            }
        }
    }

    pub fn new() -> (r: NoiseChannel)
        ensures
            r == noise_init(),
            r.wf(),
    {
        NoiseChannel {
            enabled: false,
            length: LengthCounter::new(),
            envelope: Envelope::new(),
            clock_shift: 0,
            lfsr_width_mode: false,
            divisor_code: 0,
            lfsr: 0,
            frequency_timer: 0,
        }
    }

    fn reload_period(&self) -> (r: u16)
        requires
            self.wf(),
        ensures
            r == self.period(),
    {
        divisor(self.divisor_code) << (self.clock_shift as u16)
    }

    pub fn step(&mut self)
        requires
            old(self).wf(),
        ensures
            *final(self) == old(self).stepped(),
            final(self).wf(),
    {
        if self.frequency_timer > 0 {
            self.frequency_timer = self.frequency_timer - 1;
        }
        if self.frequency_timer == 0 {
            self.frequency_timer = self.reload_period();
            let bit = (self.lfsr & 1) ^ ((self.lfsr >> 1u16) & 1);
            let mut lfsr = (self.lfsr >> 1u16) | (bit << 14u16);
            if self.lfsr_width_mode {
                lfsr = (lfsr & !(1u16 << 6u16)) | (bit << 6u16);
            }
            self.lfsr = lfsr;
        }
    }

    pub fn amplitude(&self) -> (r: u8)
        requires
            self.wf(),
        ensures
            r == self.output(),
    {
        if !self.enabled {
            return 0;
        }
        if self.lfsr & 1 == 0 {
            self.envelope.current_volume
        } else {
            0
        }
    }

    pub fn dac_on(&self) -> (r: bool)
        ensures
            r == self.dac(),
    {
        self.envelope.initial_volume != 0 || self.envelope.direction
    }

    pub fn trigger(&mut self)
        requires
            old(self).wf(),
        ensures
            *final(self) == old(self).triggered(),
            final(self).wf(),
    {
        if !self.dac_on() {
            return ;
        }
        self.enabled = true;
        if self.length.counter == 0 {
            self.length.counter = 64;
        }
        self.frequency_timer = self.reload_period();
        self.lfsr = 0x7FFF;
        self.envelope.current_volume = self.envelope.initial_volume;
        self.envelope.timer = if self.envelope.period == 0 { 8 } else { self.envelope.period };
    }
}

/// NR52 codec: bit 7 audio on, bits 0-3 channel status.
pub struct Nr52;

/// NR10 codec: bits 4-6 sweep period, bit 3 direction, bits 0-2 shift.
pub struct Nr10;

/// NRx1 codec: bits 6-7 duty, bits 0-5 initial length timer.
pub struct Nr11;

/// NRx2 codec: bits 4-7 initial volume, bit 3 direction, bits 0-2 period.
pub struct Nr12;

/// NRx4 codec: bit 7 trigger, bit 6 length enable, bits 0-2 frequency high bits.
pub struct Nr14;

/// NR30 codec: bit 7 DAC enable.
pub struct Nr30;

/// NR32 codec: bits 5-6 output level.
pub struct Nr32;

/// NR43 codec: bits 4-7 clock shift, bit 3 LFSR width, bits 0-2 divider code.
pub struct Nr43;

pub open spec fn nr52_byte(audio_on: bool, ch1: bool, ch2: bool, ch3: bool, ch4: bool) -> u8 {
    ((if audio_on { 0x80u8 } else { 0u8 }) | (if ch4 { 0x08u8 } else { 0u8 }) | (if ch3 {
        0x04u8
    } else {
        0u8
    }) | (if ch2 { 0x02u8 } else { 0u8 }) | (if ch1 { 0x01u8 } else { 0u8 })) as u8
}

pub open spec fn nr10_byte(period: u8, direction: bool, shift: u8) -> u8 {
    ((if direction { 0x08u8 } else { 0u8 }) | ((period & 0x07u8) << 4u8) | (shift & 0x07u8)) as u8
}

pub open spec fn nr11_byte(wave_duty: u8, initial_length_timer: u8) -> u8 {
    (((wave_duty & 0x03u8) << 6u8) | (initial_length_timer & 0x3Fu8)) as u8
}

pub open spec fn nr12_byte(initial_volume: u8, direction: bool, period: u8) -> u8 {
    ((if direction { 0x08u8 } else { 0u8 }) | ((initial_volume & 0x0Fu8) << 4u8) | (period & 0x07u8)) as u8
}

pub open spec fn nr14_byte(length_enable: bool) -> u8 {
    ((if length_enable { 0x40u8 } else { 0u8 }) | 0xBFu8) as u8
}

pub open spec fn nr30_byte(dac_enabled: bool) -> u8 {
    ((if dac_enabled { 0x80u8 } else { 0u8 }) | 0x7Fu8) as u8
}

pub open spec fn nr32_byte(volume: u8) -> u8 {
    (((volume & 0x03u8) << 5u8) | 0x9Fu8) as u8
}

pub open spec fn nr43_byte(clock_shift: u8, lfsr_width_mode: bool, clock_divider: u8) -> u8 {
    ((if lfsr_width_mode { 0x08u8 } else { 0u8 }) | ((clock_shift & 0x0Fu8) << 4u8) | (clock_divider
        & 0x07u8)) as u8
}

impl Nr52 {
    pub fn from_state(audio_on: bool, ch1: bool, ch2: bool, ch3: bool, ch4: bool) -> (r: u8)
        ensures
            r == nr52_byte(audio_on, ch1, ch2, ch3, ch4),
    {
        (if audio_on { 0x80u8 } else { 0u8 }) | (if ch4 { 0x08u8 } else { 0u8 }) | (if ch3 {
            0x04u8
        } else {
            0u8
        }) | (if ch2 { 0x02u8 } else { 0u8 }) | (if ch1 { 0x01u8 } else { 0u8 })
    }

    pub fn to_state(value: u8) -> (r: (bool, bool, bool, bool, bool))
        ensures
            r == (value & 0x80 != 0, value & 0x01 != 0, value & 0x02 != 0, value & 0x04 != 0, value
                & 0x08 != 0),
    {
        (value & 0x80 != 0, value & 0x01 != 0, value & 0x02 != 0, value & 0x04 != 0, value & 0x08 != 0)
    }
}

impl Nr10 {
    pub fn from_state(period: u8, direction: bool, shift: u8) -> (r: u8)
        ensures
            r == nr10_byte(period, direction, shift),
    {
        (if direction { 0x08u8 } else { 0u8 }) | ((period & 0x07) << 4u8) | (shift & 0x07)
    }

    pub fn to_state(value: u8) -> (r: (u8, bool, u8))
        ensures
            r == ((value >> 4u8) & 0x07u8, value & 0x08 != 0, value & 0x07u8),
            r.0 <= 7 && r.2 <= 7,
    {
        assert((value >> 4u8) & 0x07u8 <= 7 && value & 0x07u8 <= 7) by (bit_vector);
        ((value >> 4u8) & 0x07, value & 0x08 != 0, value & 0x07)
    }
}

impl Nr11 {
    pub fn from_state(wave_duty: u8, initial_length_timer: u8) -> (r: u8)
        ensures
            r == nr11_byte(wave_duty, initial_length_timer),
    {
        ((wave_duty & 0x03) << 6u8) | (initial_length_timer & 0x3F)
    }

    pub fn to_state(value: u8) -> (r: (u8, u8))
        ensures
            r == ((value >> 6u8) & 0x03u8, value & 0x3Fu8),
            r.0 <= 3 && r.1 <= 63,
    {
        assert((value >> 6u8) & 0x03u8 <= 3 && value & 0x3Fu8 <= 63) by (bit_vector);
        ((value >> 6u8) & 0x03, value & 0x3F)
    }
}

impl Nr12 {
    pub fn from_state(initial_volume: u8, direction: bool, period: u8) -> (r: u8)
        ensures
            r == nr12_byte(initial_volume, direction, period),
    {
        (if direction { 0x08u8 } else { 0u8 }) | ((initial_volume & 0x0F) << 4u8) | (period & 0x07)
    }

    pub fn to_state(value: u8) -> (r: (u8, bool, u8))
        ensures
            r == ((value >> 4u8) & 0x0Fu8, value & 0x08 != 0, value & 0x07u8),
            r.0 <= 15 && r.2 <= 7,
    {
        assert((value >> 4u8) & 0x0Fu8 <= 15 && value & 0x07u8 <= 7) by (bit_vector);
        ((value >> 4u8) & 0x0F, value & 0x08 != 0, value & 0x07)
    }
}

impl Nr14 {
    pub fn from_state(length_enable: bool) -> (r: u8)
        ensures
            r == nr14_byte(length_enable),
    {
        (if length_enable { 0x40u8 } else { 0u8 }) | 0xBF
    }

    pub fn to_state(value: u8) -> (r: (bool, bool, u8))
        ensures
            r == (value & 0x80 != 0, value & 0x40 != 0, value & 0x07u8),
            r.2 <= 7,
    {
        assert(value & 0x07u8 <= 7) by (bit_vector);
        (value & 0x80 != 0, value & 0x40 != 0, value & 0x07)
    }
}

impl Nr30 {
    pub fn from_state(dac_enabled: bool) -> (r: u8)
        ensures
            r == nr30_byte(dac_enabled),
    {
        (if dac_enabled { 0x80u8 } else { 0u8 }) | 0x7F
    }

    pub fn to_state(value: u8) -> (r: bool)
        ensures
            r == (value & 0x80 != 0),
    {
        value & 0x80 != 0
    }
}

impl Nr32 {
    pub fn from_state(volume: u8) -> (r: u8)
        ensures
            r == nr32_byte(volume),
    {
        ((volume & 0x03) << 5u8) | 0x9F
    }

    pub fn to_state(value: u8) -> (r: u8)
        ensures
            r == (value >> 5u8) & 0x03u8,
    {
        (value >> 5u8) & 0x03
    }
}

impl Nr43 {
    pub fn from_state(clock_shift: u8, lfsr_width_mode: bool, clock_divider: u8) -> (r: u8)
        ensures
            r == nr43_byte(clock_shift, lfsr_width_mode, clock_divider),
    {
        (if lfsr_width_mode { 0x08u8 } else { 0u8 }) | ((clock_shift & 0x0F) << 4u8) | (clock_divider & 0x07)
    }

    pub fn to_state(value: u8) -> (r: (u8, bool, u8))
        ensures
            r == ((value >> 4u8) & 0x0Fu8, value & 0x08 != 0, value & 0x07u8),
            r.0 <= 15 && r.2 <= 7,
    {
        assert((value >> 4u8) & 0x0Fu8 <= 15 && value & 0x07u8 <= 7) by (bit_vector);
        ((value >> 4u8) & 0x0F, value & 0x08 != 0, value & 0x07)
    }
}

/// Decoding an NR10 byte gives back the sweep fields it was encoded from, cut to three bits.
pub proof fn lemma_nr10_roundtrip(period: u8, direction: bool, shift: u8)
    by (bit_vector)
    ensures
        (nr10_byte(period, direction, shift) >> 4u8) & 0x07u8 == period & 0x07u8,
        (nr10_byte(period, direction, shift) & 0x08 != 0) == direction,
        nr10_byte(period, direction, shift) & 0x07u8 == shift & 0x07u8,
{
}

/// Decoding an NR11 byte gives back the duty (two bits) and the length timer (six bits).
pub proof fn lemma_nr11_roundtrip(wave_duty: u8, initial_length_timer: u8)
    by (bit_vector)
    ensures
        (nr11_byte(wave_duty, initial_length_timer) >> 6u8) & 0x03u8 == wave_duty & 0x03u8,
        nr11_byte(wave_duty, initial_length_timer) & 0x3Fu8 == initial_length_timer & 0x3Fu8,
{
}

/// Decoding an NR12 (or NR22, NR42) byte gives back the envelope fields it was encoded from.
pub proof fn lemma_nr12_roundtrip(initial_volume: u8, direction: bool, period: u8)
    by (bit_vector)
    ensures
        (nr12_byte(initial_volume, direction, period) >> 4u8) & 0x0Fu8 == initial_volume & 0x0Fu8,
        (nr12_byte(initial_volume, direction, period) & 0x08 != 0) == direction,
        nr12_byte(initial_volume, direction, period) & 0x07u8 == period & 0x07u8,
{
}

/// Decoding an NR43 byte gives back the noise fields it was encoded from.
pub proof fn lemma_nr43_roundtrip(clock_shift: u8, lfsr_width_mode: bool, clock_divider: u8)
    by (bit_vector)
    ensures
        (nr43_byte(clock_shift, lfsr_width_mode, clock_divider) >> 4u8) & 0x0Fu8 == clock_shift & 0x0Fu8,
        (nr43_byte(clock_shift, lfsr_width_mode, clock_divider) & 0x08 != 0) == lfsr_width_mode,
        nr43_byte(clock_shift, lfsr_width_mode, clock_divider) & 0x07u8 == clock_divider & 0x07u8,
{
}

/// Decoding an NR52 byte gives back the power flag and the four channel flags.
pub proof fn lemma_nr52_roundtrip(audio_on: bool, ch1: bool, ch2: bool, ch3: bool, ch4: bool)
    by (bit_vector)
    ensures
        (nr52_byte(audio_on, ch1, ch2, ch3, ch4) & 0x80 != 0) == audio_on,
        (nr52_byte(audio_on, ch1, ch2, ch3, ch4) & 0x01 != 0) == ch1,
        (nr52_byte(audio_on, ch1, ch2, ch3, ch4) & 0x02 != 0) == ch2,
        (nr52_byte(audio_on, ch1, ch2, ch3, ch4) & 0x04 != 0) == ch3,
        (nr52_byte(audio_on, ch1, ch2, ch3, ch4) & 0x08 != 0) == ch4,
{
}

/// Decoding the bytes of NR14, NR30 and NR32 gives back the length-enable flag, the DAC flag
/// and the two-bit volume code.
pub proof fn lemma_nr14_nr30_nr32_roundtrip(length_enable: bool, dac_enabled: bool, volume: u8)
    by (bit_vector)
    ensures
        (nr14_byte(length_enable) & 0x40 != 0) == length_enable,
        (nr30_byte(dac_enabled) & 0x80 != 0) == dac_enabled,
        (nr32_byte(volume) >> 5u8) & 0x03u8 == volume & 0x03u8,
{
}

/// The audio processing unit: four channels, the mixer registers and the frame sequencer.
pub struct Apu {
    pub enabled: bool,
    pub frame_sequencer_step: u8,
    pub frame_sequencer_counter: u16,
    pub ch1: SquareChannel,
    pub ch2: SquareChannel,
    pub ch3: WaveChannel,
    pub ch4: NoiseChannel,
    pub nr50: u8,
    pub nr51: u8,
}

/// The 11-bit frequency with its low byte replaced.
pub open spec fn with_low_frequency(frequency: u16, low: u8) -> u16 {
    ((frequency / 256) * 256 + low) as u16
}

/// The 11-bit frequency with its high three bits replaced.
pub open spec fn with_high_frequency(frequency: u16, high: u8) -> u16 {
    (frequency % 256 + high * 256) as u16
}

impl Apu {
    pub open spec fn wf(&self) -> bool {
        &&& self.ch1.wf() && self.ch1.sweep is Some
        &&& self.ch2.wf() && self.ch2.sweep is None
        &&& self.ch3.wf()
        &&& self.ch4.wf()
        &&& self.frame_sequencer_step <= 7
        &&& self.frame_sequencer_counter < 8192
    }

    /// The value read from an audio register or wave RAM; 0 outside 0xFF10-0xFF3F.
    pub open spec fn register(&self, address: u16) -> u8 {
        let s = self.ch1.sweep.unwrap();
        if address == 0xFF10 {
            nr10_byte(s.period, s.direction, s.shift)
        } else if address == 0xFF11 {
            (nr11_byte(self.ch1.duty, 0) | 0x3Fu8) as u8
        } else if address == 0xFF12 {
            nr12_byte(self.ch1.envelope.initial_volume, self.ch1.envelope.direction, self.ch1.envelope.period)
        } else if address == 0xFF14 {
            nr14_byte(self.ch1.length.enabled)
        } else if address == 0xFF16 {
            (nr11_byte(self.ch2.duty, 0) | 0x3Fu8) as u8
        } else if address == 0xFF17 {
            nr12_byte(self.ch2.envelope.initial_volume, self.ch2.envelope.direction, self.ch2.envelope.period)
        } else if address == 0xFF19 {
            nr14_byte(self.ch2.length.enabled)
        } else if address == 0xFF1A {
            nr30_byte(self.ch3.dac_enabled)
        } else if address == 0xFF1C {
            nr32_byte(self.ch3.volume_shift)
        } else if address == 0xFF1E {
            nr14_byte(self.ch3.length.enabled)
        } else if address == 0xFF21 {
            nr12_byte(self.ch4.envelope.initial_volume, self.ch4.envelope.direction, self.ch4.envelope.period)
        } else if address == 0xFF22 {
            nr43_byte(self.ch4.clock_shift, self.ch4.lfsr_width_mode, self.ch4.divisor_code)
        } else if address == 0xFF23 {
            nr14_byte(self.ch4.length.enabled)
        } else if address == 0xFF24 {
            self.nr50
        } else if address == 0xFF25 {
            self.nr51
        } else if address == 0xFF26 {
            nr52_byte(self.enabled, self.ch1.enabled, self.ch2.enabled, self.ch3.enabled, self.ch4.enabled)
        } else if 0xFF30 <= address <= 0xFF3F {
            self.ch3.wave_ram@[address - 0xFF30]
        } else if 0xFF10 <= address <= 0xFF2F {
            0xFF
        } else {
            0
        }
    }

    /// Whether a write is ignored because the APU is off (all of NR10-NR51; only NR52 and wave
    /// RAM take writes then).
    pub open spec fn write_ignored(&self, address: u16) -> bool {
        !self.enabled && 0xFF10 <= address <= 0xFF25
    }

    /// The APU after a write to a register outside wave RAM.
    pub open spec fn after_write(self, address: u16, value: u8) -> Apu {
        if self.write_ignored(address) {
            self
        } else if address <= 0xFF19 {
            self.after_square_write(address, value)
        } else if address <= 0xFF23 {
            self.after_wave_noise_write(address, value)
        } else {
            self.after_control_write(address, value)
        }
    }

    /// A write to the registers of the square channels (0xFF10-0xFF19).
    pub open spec fn after_square_write(self, address: u16, value: u8) -> Apu {
        if address == 0xFF10 {
            let s = self.ch1.sweep.unwrap();
            Apu {
                ch1: SquareChannel {
                    sweep: Some(Sweep { period: (value >> 4u8) & 0x07u8, direction: value & 0x08 != 0, shift: value & 0x07u8, ..s }),
                    ..self.ch1
                },
                ..self
            }
        } else if address == 0xFF11 || address == 0xFF16 {
            let c = if address == 0xFF11 { self.ch1 } else { self.ch2 };
            let c2 = SquareChannel {
                duty: if self.enabled { (value >> 6u8) & 0x03u8 } else { c.duty },
                length: LengthCounter { counter: (64 - (value & 0x3Fu8)) as u16, ..c.length },
                ..c
            };
            if address == 0xFF11 { Apu { ch1: c2, ..self } } else { Apu { ch2: c2, ..self } }
        } else if address == 0xFF12 || address == 0xFF17 {
            let e = if address == 0xFF12 { self.ch1.envelope } else { self.ch2.envelope };
            let e2 = Envelope {
                initial_volume: (value >> 4u8) & 0x0Fu8,
                direction: value & 0x08 != 0,
                period: value & 0x07u8,
                ..e
            };
            if address == 0xFF12 {
                Apu { ch1: SquareChannel { envelope: e2, ..self.ch1 }, ..self }
            } else {
                Apu { ch2: SquareChannel { envelope: e2, ..self.ch2 }, ..self }
            }
        } else if address == 0xFF13 {
            Apu { ch1: SquareChannel { frequency: with_low_frequency(self.ch1.frequency, value), ..self.ch1 }, ..self }
        } else if address == 0xFF18 {
            Apu { ch2: SquareChannel { frequency: with_low_frequency(self.ch2.frequency, value), ..self.ch2 }, ..self }
        } else if address == 0xFF14 || address == 0xFF19 {
            let c = if address == 0xFF14 { self.ch1 } else { self.ch2 };
            let c2 = SquareChannel {
                length: LengthCounter { enabled: value & 0x40 != 0, ..c.length },
                frequency: with_high_frequency(c.frequency, value & 0x07u8),
                ..c
            };
            let c3 = if value & 0x80 != 0 { c2.triggered() } else { c2 };
            if address == 0xFF14 { Apu { ch1: c3, ..self } } else { Apu { ch2: c3, ..self } }
        } else {
            self
        }
    }

    /// A write to the registers of the wave and noise channels (0xFF1A-0xFF23).
    pub open spec fn after_wave_noise_write(self, address: u16, value: u8) -> Apu {
        if address == 0xFF21 {
            Apu {
                ch4: NoiseChannel {
                    envelope: Envelope {
                        initial_volume: (value >> 4u8) & 0x0Fu8,
                        direction: value & 0x08 != 0,
                        period: value & 0x07u8,
                        ..self.ch4.envelope
                    },
                    ..self.ch4
                },
                ..self
            }
        } else if address == 0xFF1D {
            Apu { ch3: WaveChannel { frequency: with_low_frequency(self.ch3.frequency, value), ..self.ch3 }, ..self }
        } else if address == 0xFF1A {
            Apu { ch3: WaveChannel { dac_enabled: value & 0x80 != 0, ..self.ch3 }, ..self }
        } else if address == 0xFF1B {
            Apu { ch3: WaveChannel { length: LengthCounter { counter: (256 - value) as u16, ..self.ch3.length }, ..self.ch3 }, ..self }
        } else if address == 0xFF1C {
            Apu { ch3: WaveChannel { volume_shift: (value >> 5u8) & 0x03u8, ..self.ch3 }, ..self }
        } else if address == 0xFF1E {
            let c2 = WaveChannel {
                length: LengthCounter { enabled: value & 0x40 != 0, ..self.ch3.length },
                frequency: with_high_frequency(self.ch3.frequency, value & 0x07u8),
                ..self.ch3
            };
            Apu { ch3: if value & 0x80 != 0 { c2.triggered() } else { c2 }, ..self }
        } else if address == 0xFF20 {
            Apu { ch4: NoiseChannel { length: LengthCounter { counter: (64 - (value & 0x3Fu8)) as u16, ..self.ch4.length }, ..self.ch4 }, ..self }
        } else if address == 0xFF22 {
            Apu {
                ch4: NoiseChannel {
                    clock_shift: (value >> 4u8) & 0x0Fu8,
                    lfsr_width_mode: value & 0x08 != 0,
                    divisor_code: value & 0x07u8,
                    ..self.ch4
                },
                ..self
            }
        } else if address == 0xFF23 {
            let c2 = NoiseChannel { length: LengthCounter { enabled: value & 0x40 != 0, ..self.ch4.length }, ..self.ch4 };
            Apu { ch4: if value & 0x80 != 0 { c2.triggered() } else { c2 }, ..self }
        } else {
            self
        }
    }

    /// A write to the mixer and power registers (0xFF24-0xFF26) or to an unused one.
    pub open spec fn after_control_write(self, address: u16, value: u8) -> Apu {
        if address == 0xFF24 {
            Apu { nr50: value, ..self }
        } else if address == 0xFF25 {
            Apu { nr51: value, ..self }
        } else if address == 0xFF26 {
            let audio_on = value & 0x80 != 0;
            if self.enabled && !audio_on {
                Apu {
                    enabled: false,
                    ch1: square_init(true),
                    ch2: square_init(false),
                    ch3: WaveChannel {
                        enabled: false,
                        dac_enabled: false,
                        length: LengthCounter { counter: 0, enabled: false },
                        volume_shift: 0,
                        frequency: 0,
                        frequency_timer: 0,
                        position: 0,
                        ..self.ch3
                    },
                    ch4: noise_init(),
                    nr50: 0,
                    nr51: 0,
                    ..self
                }
            } else {
                Apu { enabled: audio_on, ..self }
            }
        } else {
            self
        }
    }

    /// Whether `self` is the APU after `value` is written at `address`.
    pub open spec fn written(&self, old: &Apu, address: u16, value: u8) -> bool {
        if 0xFF30 <= address <= 0xFF3F {
            &&& *self == Apu { ch3: WaveChannel { wave_ram: self.ch3.wave_ram, ..old.ch3 }, ..*old }
            &&& self.ch3.wave_ram@ == old.ch3.wave_ram@.update(address - 0xFF30, value)
        } else {
            *self == old.after_write(address, value)
        }
    }

    /// The APU after one clock: the frame sequencer (every 8192 clocks: lengths on even steps,
    /// the sweep on steps 2 and 6, envelopes on step 7), then each channel's frequency timer.
    pub open spec fn stepped(self) -> Apu {
        let a = self.sequenced();
        Apu {
            ch1: a.ch1.stepped(),
            ch2: a.ch2.stepped(),
            ch3: a.ch3.stepped(),
            ch4: a.ch4.stepped(),
            ..a
        }
    }

    /// The frame sequencer part of one clock.
    pub open spec fn sequenced(self) -> Apu {
        let counter = self.frame_sequencer_counter + 1;
        if counter == 8192 {
            let step = ((self.frame_sequencer_step + 1) % 8) as u8;
            let a1 = Apu { frame_sequencer_counter: 0, frame_sequencer_step: step, ..self };
            let a2 = if step % 2 == 0 { a1.lengths_ticked() } else { a1 };
            let a3 = if step == 2 || step == 6 { a2.sweep_ticked() } else { a2 };
            if step == 7 { a3.envelopes_ticked() } else { a3 }
        } else {
            Apu { frame_sequencer_counter: counter as u16, ..self }
        }
    }

    /// Every length timer ticked; a channel whose timer reaches zero turns off.
    pub open spec fn lengths_ticked(self) -> Apu {
        Apu {
            ch1: self.ch1.length_ticked(),
            ch2: self.ch2.length_ticked(),
            ch3: self.ch3.length_ticked(),
            ch4: self.ch4.length_ticked(),
            ..self
        }
    }

    /// The sweep of channel 1 ticked; an overflow turns the channel off.
    pub open spec fn sweep_ticked(self) -> Apu {
        match self.ch1.sweep {
            Some(sw) => {
                let (sw2, f2, over) = sw.ticked(self.ch1.frequency);
                Apu {
                    ch1: SquareChannel { sweep: Some(sw2), frequency: f2, enabled: self.ch1.enabled && !over, ..self.ch1 },
                    ..self
                }
            },
            None => self,
        }
    }

    /// The envelopes of channels 1, 2 and 4 ticked.
    pub open spec fn envelopes_ticked(self) -> Apu {
        Apu {
            ch1: SquareChannel { envelope: self.ch1.envelope.ticked(), ..self.ch1 },
            ch2: SquareChannel { envelope: self.ch2.envelope.ticked(), ..self.ch2 },
            ch4: NoiseChannel { envelope: self.ch4.envelope.ticked(), ..self.ch4 },
            ..self
        }
    }

    /// The APU after `n` clocks.
    pub open spec fn run(self, n: nat) -> Apu
        decreases n,
    {
        if n == 0 {
            self
        } else {
            self.stepped().run((n - 1) as nat)
        }
    }

    /// An APU at power-on: off, all channels silent.
    pub fn new() -> (r: Apu)
        ensures
            r.wf(),
            !r.enabled && r.nr50 == 0 && r.nr51 == 0,
            r.frame_sequencer_step == 0 && r.frame_sequencer_counter == 0,
            r.ch1 == square_init(true) && r.ch2 == square_init(false) && r.ch4 == noise_init(),
            !r.ch3.enabled && !r.ch3.dac_enabled && r.ch3.length == LengthCounter::new_spec(),
            r.ch3.volume_shift == 0 && r.ch3.frequency == 0 && r.ch3.frequency_timer == 0 && r.ch3.position == 0,
            r.ch3.wave_ram@ == Seq::new(16, |i: int| 0u8),
    {
        Apu {
            enabled: false,
            frame_sequencer_step: 0,
            frame_sequencer_counter: 0,
            ch1: SquareChannel::new(true),
            ch2: SquareChannel::new(false),
            ch3: WaveChannel::new(),
            ch4: NoiseChannel::new(),
            nr50: 0,
            nr51: 0,
        }
    }

    /// The current 0-15 output of each channel.
    pub fn channel_amplitudes(&self) -> (r: [u8; 4])
        requires
            self.wf(),
        ensures
            r@ == seq![self.ch1.output(), self.ch2.output(), self.ch3.output(), self.ch4.output()],
    {
        let r = [self.ch1.amplitude(), self.ch2.amplitude(), self.ch3.amplitude(), self.ch4.amplitude()];
        assert(r@ =~= seq![self.ch1.output(), self.ch2.output(), self.ch3.output(), self.ch4.output()]);
        r
    }

    /// Reads an audio register or wave RAM.
    pub fn read(&self, address: u16) -> (r: u8)
        requires
            self.wf(),
        ensures
            r == self.register(address),
    {
        if address == 0xFF10 {
            match &self.ch1.sweep {
                Some(sweep) => Nr10::from_state(sweep.period, sweep.direction, sweep.shift),
                None => 0,
            }
        } else if address == 0xFF11 {
            Nr11::from_state(self.ch1.duty, 0) | 0x3F
        } else if address == 0xFF12 {
            Nr12::from_state(self.ch1.envelope.initial_volume, self.ch1.envelope.direction, self.ch1.envelope.period)
        } else if address == 0xFF14 {
            Nr14::from_state(self.ch1.length.enabled)
        } else if address == 0xFF16 {
            Nr11::from_state(self.ch2.duty, 0) | 0x3F
        } else if address == 0xFF17 {
            Nr12::from_state(self.ch2.envelope.initial_volume, self.ch2.envelope.direction, self.ch2.envelope.period)
        } else if address == 0xFF19 {
            Nr14::from_state(self.ch2.length.enabled)
        } else if address == 0xFF1A {
            Nr30::from_state(self.ch3.dac_enabled)
        } else if address == 0xFF1C {
            Nr32::from_state(self.ch3.volume_shift)
        } else if address == 0xFF1E {
            Nr14::from_state(self.ch3.length.enabled)
        } else if address == 0xFF21 {
            Nr12::from_state(self.ch4.envelope.initial_volume, self.ch4.envelope.direction, self.ch4.envelope.period)
        } else if address == 0xFF22 {
            Nr43::from_state(self.ch4.clock_shift, self.ch4.lfsr_width_mode, self.ch4.divisor_code)
        } else if address == 0xFF23 {
            Nr14::from_state(self.ch4.length.enabled)
        } else if address == 0xFF24 {
            self.nr50
        } else if address == 0xFF25 {
            self.nr51
        } else if address == 0xFF26 {
            Nr52::from_state(self.enabled, self.ch1.enabled, self.ch2.enabled, self.ch3.enabled, self.ch4.enabled)
        } else if 0xFF30 <= address && address <= 0xFF3F {
            self.ch3.wave_ram[(address - 0xFF30) as usize]
        } else if 0xFF10 <= address && address <= 0xFF2F {
            0xFF
        } else {
            0
        }
    }
}

impl Apu {
    /// Writes an audio register or wave RAM. While the APU is off, NR10-NR51 ignore writes;
    /// turning it off clears the channels and NR50/NR51, not wave RAM.
    pub fn write(&mut self, address: u16, value: u8)
        requires
            old(self).wf(),
        ensures
            final(self).written(old(self), address, value),
            final(self).wf(),
    {
        if !self.enabled && 0xFF10 <= address && address <= 0xFF25 {
            return ;
        }
        if 0xFF30 <= address && address <= 0xFF3F {
            self.ch3.wave_ram[(address - 0xFF30) as usize] = value;
        } else if address <= 0xFF19 {
            self.write_square(address, value);
        } else if address <= 0xFF23 {
            self.write_wave_noise(address, value);
        } else {
            self.write_control(address, value);
        }
    }

    fn write_square(&mut self, address: u16, value: u8)
        requires
            old(self).wf(),
        ensures
            *final(self) == old(self).after_square_write(address, value),
            final(self).wf(),
    {
        if address == 0xFF10 {
            let (period, direction, shift) = Nr10::to_state(value);
            match self.ch1.sweep {
                Some(s) => {
                    let mut sweep = s;
                    sweep.period = period;
                    sweep.direction = direction;
                    sweep.shift = shift;
                    self.ch1.sweep = Some(sweep);
                },
                None => {},
            }
        } else if address == 0xFF11 || address == 0xFF16 {
            let (duty, initial_length_timer) = Nr11::to_state(value);
            let mut c = if address == 0xFF11 { self.ch1 } else { self.ch2 };
            if self.enabled {
                c.duty = duty;
            }
            c.length.counter = 64 - initial_length_timer as u16;
            if address == 0xFF11 {
                self.ch1 = c;
            } else {
                self.ch2 = c;
            }
        } else if address == 0xFF12 || address == 0xFF17 {
            let (initial_volume, direction, period) = Nr12::to_state(value);
            let mut e = if address == 0xFF12 { self.ch1.envelope } else { self.ch2.envelope };
            e.initial_volume = initial_volume;
            e.direction = direction;
            e.period = period;
            if address == 0xFF12 {
                self.ch1.envelope = e;
            } else {
                self.ch2.envelope = e;
            }
        } else if address == 0xFF13 {
            self.ch1.frequency = (self.ch1.frequency / 256) * 256 + value as u16;
        } else if address == 0xFF18 {
            self.ch2.frequency = (self.ch2.frequency / 256) * 256 + value as u16;
        } else if address == 0xFF14 || address == 0xFF19 {
            let (trigger, length_enable, frequency_high) = Nr14::to_state(value);
            let mut c = if address == 0xFF14 { self.ch1 } else { self.ch2 };
            c.length.enabled = length_enable;
            c.frequency = c.frequency % 256 + frequency_high as u16 * 256;
            if trigger {
                c.trigger();
            }
            if address == 0xFF14 {
                self.ch1 = c;
            } else {
                self.ch2 = c;
            }
        }
    }

    fn write_wave_noise(&mut self, address: u16, value: u8)
        requires
            old(self).wf(),
        ensures
            *final(self) == old(self).after_wave_noise_write(address, value),
            final(self).wf(),
    {
        if address == 0xFF21 {
            let (initial_volume, direction, period) = Nr12::to_state(value);
            self.ch4.envelope.initial_volume = initial_volume;
            self.ch4.envelope.direction = direction;
            self.ch4.envelope.period = period;
        } else if address == 0xFF1D {
            self.ch3.frequency = (self.ch3.frequency / 256) * 256 + value as u16;
        } else if address == 0xFF1A {
            self.ch3.dac_enabled = Nr30::to_state(value);
        } else if address == 0xFF1B {
            self.ch3.length.counter = 256 - value as u16;
        } else if address == 0xFF1C {
            self.ch3.volume_shift = Nr32::to_state(value);
        } else if address == 0xFF1E {
            let (trigger, length_enable, frequency_high) = Nr14::to_state(value);
            self.ch3.length.enabled = length_enable;
            self.ch3.frequency = self.ch3.frequency % 256 + frequency_high as u16 * 256;
            if trigger {
                self.ch3.trigger();
            }
        } else if address == 0xFF20 {
            let (_, length_timer) = Nr11::to_state(value);
            self.ch4.length.counter = 64 - length_timer as u16;
        } else if address == 0xFF22 {
            let (clock_shift, lfsr_width_mode, divisor_code) = Nr43::to_state(value);
            self.ch4.clock_shift = clock_shift;
            self.ch4.lfsr_width_mode = lfsr_width_mode;
            self.ch4.divisor_code = divisor_code;
        } else if address == 0xFF23 {
            let (trigger, length_enable, _) = Nr14::to_state(value);
            self.ch4.length.enabled = length_enable;
            if trigger {
                self.ch4.trigger();
            }
        }
    }

    fn write_control(&mut self, address: u16, value: u8)
        requires
            old(self).wf(),
        ensures
            *final(self) == old(self).after_control_write(address, value),
            final(self).wf(),
    {
        if address == 0xFF24 {
            self.nr50 = value;
        } else if address == 0xFF25 {
            self.nr51 = value;
        } else if address == 0xFF26 {
            let (audio_on, _, _, _, _) = Nr52::to_state(value);
            if self.enabled && !audio_on {
                self.ch1 = SquareChannel::new(true);
                self.ch2 = SquareChannel::new(false);
                self.ch3.enabled = false;
                self.ch3.dac_enabled = false;
                self.ch3.length = LengthCounter::new();
                self.ch3.volume_shift = 0;
                self.ch3.frequency = 0;
                self.ch3.frequency_timer = 0;
                self.ch3.position = 0;
                self.ch4 = NoiseChannel::new();
                self.nr50 = 0;
                self.nr51 = 0;
            }
            self.enabled = audio_on;
        }
    }

    /// One clock of the APU.
    pub fn step(&mut self)
        requires
            old(self).wf(),
        ensures
            *final(self) == old(self).stepped(),
            final(self).wf(),
    {
        self.frame_sequencer_tick();
        self.ch1.step();
        self.ch2.step();
        self.ch3.step();
        self.ch4.step();
    }

    fn frame_sequencer_tick(&mut self)
        requires
            old(self).wf(),
        ensures
            *final(self) == old(self).sequenced(),
            final(self).wf(),
    {
        self.frame_sequencer_counter = self.frame_sequencer_counter + 1;
        if self.frame_sequencer_counter == 8192 {
            self.frame_sequencer_counter = 0;
            self.frame_sequencer_step = (self.frame_sequencer_step + 1) % 8;
            if self.frame_sequencer_step % 2 == 0 {
                self.tick_lengths();
            }
            if self.frame_sequencer_step == 2 || self.frame_sequencer_step == 6 {
                self.tick_sweep();
            }
            if self.frame_sequencer_step == 7 {
                self.ch1.envelope.tick();
                self.ch2.envelope.tick();
                self.ch4.envelope.tick();
            }
        }
    }

    fn tick_lengths(&mut self)
        requires
            old(self).wf(),
        ensures
            *final(self) == old(self).lengths_ticked(),
            final(self).wf(),
    {
        self.ch1.tick_length();
        self.ch2.tick_length();
        self.ch3.tick_length();
        self.ch4.tick_length();
    }

    fn tick_sweep(&mut self)
        requires
            old(self).wf(),
        ensures
            *final(self) == old(self).sweep_ticked(),
            final(self).wf(),
    {
        match self.ch1.sweep {
            Some(s) => {
                let mut sweep = s;
                let mut frequency = self.ch1.frequency;
                let overflow = sweep.tick(&mut frequency);
                self.ch1.sweep = Some(sweep);
                self.ch1.frequency = frequency;
                if overflow {
                    self.ch1.enabled = false;
                }
            },
            None => {},
        }
    }

    /// `cycles` clocks of the APU.
    pub fn cycle(&mut self, cycles: u8)
        requires
            old(self).wf(),
        ensures
            *final(self) == old(self).run(cycles as nat),
            final(self).wf(),
    {
        let mut i: u8 = 0;
        while i < cycles
            invariant
                i <= cycles,
                self.wf(),
                old(self).run(cycles as nat) == self.run((cycles - i) as nat),
            decreases cycles - i,
        {
            self.step();
            i = i + 1;
        }
    }
}

/// One envelope tick with a running envelope (period above 0) and a volume of at most 15: when
/// the timer runs out (it is at most 1), the volume steps to min(v + 1, 15) if the NRx2 direction
/// bit is set and to max(v - 1, 0) if it is clear, and the timer reloads with the period;
/// otherwise the timer counts down by one and the volume stays. Period 0 stops the envelope.
pub proof fn lemma_envelope_step(e: Envelope)
    requires
        e.current_volume <= 15,
    ensures
        e.period == 0 ==> e.ticked() == e,
        e.period > 0 && e.timer <= 1 ==> e.ticked().timer == e.period && e.ticked().current_volume == (if e.direction {
            if e.current_volume + 1 < 15 { e.current_volume + 1 } else { 15 }
        } else {
            if e.current_volume - 1 > 0 { e.current_volume - 1 } else { 0 }
        }),
        e.period > 0 && e.timer > 1 ==> e.ticked().timer == e.timer - 1 && e.ticked().current_volume
            == e.current_volume,
        e.ticked().direction == e.direction && e.ticked().period == e.period
            && e.ticked().initial_volume == e.initial_volume,
{
}

/// When the frequency sweep fires (its timer runs out, it is enabled and its period is above
/// 0), the target frequency is shadow - shadow / 2^shift when the NR10 direction bit is set and
/// shadow + shadow / 2^shift when it is clear. A target above 2047 silences the channel and
/// changes no frequency; otherwise, with a shift above 0, the target becomes both the shadow and
/// the channel frequency, and with shift 0 nothing moves. The timer reloads with the period.
pub proof fn lemma_sweep_step(s: Sweep, frequency: u16)
    requires
        s.wf(),
        s.timer <= 1,
        s.enabled,
        s.period > 0,
    ensures
        ({
            let d = s.shadow_frequency as nat / vstd::arithmetic::power2::pow2(s.shift as nat);
            let target: int = if s.direction {
                s.shadow_frequency - d
            } else {
                s.shadow_frequency + d
            };
            let (s2, f2, overflow) = s.ticked(frequency);
            &&& overflow == (target > 2047)
            &&& s2.timer == s.period
            &&& target > 2047 ==> f2 == frequency && s2.shadow_frequency == s.shadow_frequency
            &&& target <= 2047 && s.shift > 0 ==> f2 == target && s2.shadow_frequency == target
            &&& target <= 2047 && s.shift == 0 ==> f2 == frequency && s2.shadow_frequency
                == s.shadow_frequency
        }),
{
    vstd::bits::lemma_u16_shr_is_div(s.shadow_frequency, s.shift as u16);
    let d = s.shadow_frequency as nat / vstd::arithmetic::power2::pow2(s.shift as nat);
    assert((s.shadow_frequency >> (s.shift as u16)) as int == d);
    vstd::arithmetic::power2::lemma_pow2_pos(s.shift as nat);
    vstd::arithmetic::div_mod::lemma_div_nonincreasing(
        s.shadow_frequency as int,
        vstd::arithmetic::power2::pow2(s.shift as nat) as int,
    );
    assert(d <= s.shadow_frequency);
    assert(sweep_target(s.shadow_frequency, s.shift, s.direction) == if s.direction {
        s.shadow_frequency - d
    } else {
        s.shadow_frequency + d
    });
}

} // verus!
