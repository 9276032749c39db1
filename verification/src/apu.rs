//! The audio processing unit as a register file: five channels and the frame
//! sequencer that clocks their envelopes, sweeps and length counters. Sample
//! generation is left to the host's mixer.

use vstd::prelude::*;

verus! {

/// Length-counter loads, indexed by the high five bits of the length byte.
pub const LENGTH_TABLE: [u8; 32] = [
    10, 254, 20, 2, 40, 4, 80, 6, 160, 8, 60, 10, 14, 12, 26, 14,
    12, 16, 24, 18, 48, 20, 96, 22, 192, 24, 72, 26, 16, 28, 32, 30,
];

/// NTSC noise periods, indexed by the low four bits of `$400E`.
pub const NOISE_TIMER_TABLE: [u16; 16] = [
    4, 8, 16, 32, 64, 96, 128, 160, 202, 254, 380, 508, 762, 1016, 2034, 4068,
];

/// NTSC DMC periods, indexed by the low four bits of `$4010`.
pub const DMC_RATE_TABLE: [u16; 16] = [
    428, 380, 340, 320, 286, 254, 226, 214, 190, 160, 142, 128, 106, 84, 72, 54,
];

/// CPU cycles between two steps of the frame sequencer (about 240 Hz).
pub const SEQUENCER_PERIOD: u16 = 7457;

/// Bit `bit` (0 to 7) of `value`.
#[verifier::allow_in_spec]
pub fn bit(value: u8, bit: u8) -> bool
    requires
        bit < 8,
    returns
        (value >> bit) % 2 == 1,
{
    (value >> bit) % 2 == 1
}

/// A timer's low byte replaced.
#[verifier::allow_in_spec]
pub fn with_timer_low(reload: u16, value: u8) -> u16
    returns
        ((reload / 256) * 256 + value) as u16,
{
    (reload / 256) * 256 + value as u16
}

/// A timer's high three bits replaced: the timer has eleven bits.
#[verifier::allow_in_spec]
pub fn with_timer_high(reload: u16, value: u8) -> u16
    returns
        ((value % 8) * 256 + reload % 256) as u16,
{
    (value % 8) as u16 * 256 + reload % 256
}

/// The length-counter load that a length byte selects.
#[verifier::allow_in_spec]
pub fn length_load(value: u8) -> u8
    returns
        LENGTH_TABLE[(value / 8) as int],
{
    LENGTH_TABLE[(value / 8) as usize]
}

#[derive(Clone, Copy, Debug, PartialEq, Eq, Structural)]
pub struct PulseChannel {
    pub enabled: bool,
    /// The volume, or the envelope's reload value: 0 to 15.
    pub volume: u8,
    /// Which of the four duty sequences plays.
    pub duty_cycle: u8,
    /// Position in the eight-step duty sequence.
    pub duty_position: u8,
    pub timer: u16,
    pub timer_reload: u16,
    pub length_counter: u8,
    /// The envelope's decay level: 0 to 15.
    pub envelope: u8,
    pub constant_volume: bool,
    /// Loops the envelope and halts the length counter.
    pub envelope_loop: bool,
    /// The sweep register as written.
    pub sweep: u8,
}

impl PulseChannel {
    pub open spec fn wf(&self) -> bool {
        self.duty_position < 8
    }

    pub open spec fn spec_new() -> PulseChannel {
        PulseChannel {
            enabled: false,
            volume: 15,
            duty_cycle: 0,
            duty_position: 0,
            timer: 0,
            timer_reload: 0,
            length_counter: 0,
            envelope: 15,
            constant_volume: false,
            envelope_loop: false,
            sweep: 0,
        }
    }

    /// One timer clock. A silenced channel stands still; otherwise the timer
    /// counts down and, on reaching zero, reloads and moves the duty
    /// sequence one step.
    pub open spec fn spec_tick(&self) -> PulseChannel {
        if !self.enabled || self.length_counter == 0 {
            *self
        } else if self.timer > 0 {
            PulseChannel { timer: (self.timer - 1) as u16, ..*self }
        } else {
            PulseChannel {
                timer: self.timer_reload,
                duty_position: ((self.duty_position + 1) % 8) as u8,
                ..*self
            }
        }
    }

    /// `$4000/$4004`: duty in bits 7-6, loop in bit 5, constant volume in
    /// bit 4, volume in bits 3-0.
    pub open spec fn spec_write_control(&self, value: u8) -> PulseChannel {
        PulseChannel {
            constant_volume: bit(value, 4),
            volume: value % 16,
            envelope_loop: bit(value, 5),
            duty_cycle: value / 64,
            ..*self
        }
    }

    pub open spec fn spec_write_sweep(&self, value: u8) -> PulseChannel {
        PulseChannel { sweep: value, ..*self }
    }

    pub open spec fn spec_write_timer_low(&self, value: u8) -> PulseChannel {
        PulseChannel { timer_reload: with_timer_low(self.timer_reload, value), ..*self }
    }

    /// `$4003/$4007`: the timer's high bits, and a fresh load of the length
    /// counter from bits 7-3.
    pub open spec fn spec_write_timer_high(&self, value: u8) -> PulseChannel {
        PulseChannel {
            timer_reload: with_timer_high(self.timer_reload, value),
            length_counter: length_load(value),
            ..*self
        }
    }

    /// A disabled channel loses its length counter.
    pub open spec fn spec_set_enabled(&self, enabled: bool) -> PulseChannel {
        PulseChannel {
            enabled,
            length_counter: if enabled {
                self.length_counter
            } else {
                0
            },
            ..*self
        }
    }

    /// One envelope clock: unless the volume is constant, the level decays
    /// by one and, in loop mode, starts again from the volume.
    pub open spec fn spec_clock_envelope(&self) -> PulseChannel {
        if self.constant_volume {
            *self
        } else if self.envelope > 0 {
            PulseChannel { envelope: (self.envelope - 1) as u8, ..*self }
        } else if self.envelope_loop {
            PulseChannel { envelope: self.volume, ..*self }
        } else {
            *self
        }
    }

    /// One length clock: the counter counts down to zero unless halted.
    pub open spec fn spec_clock_length(&self) -> PulseChannel {
        if !self.envelope_loop && self.length_counter > 0 {
            PulseChannel { length_counter: (self.length_counter - 1) as u8, ..*self }
        } else {
            *self
        }
    }

    /// The period after one sweep step: the period changed by itself
    /// shifted right by the sweep's shift count (bits 2-0), downwards with
    /// bit 3. A step that would leave eleven bits changes nothing.
    pub open spec fn spec_swept_period(&self) -> u16 {
        let change = self.timer_reload >> (self.sweep % 8);
        if bit(self.sweep, 3) {
            if change <= self.timer_reload {
                (self.timer_reload - change) as u16
            } else {
                self.timer_reload
            }
        } else if self.timer_reload + change <= 0x7FF {
            (self.timer_reload + change) as u16
        } else {
            self.timer_reload
        }
    }

    /// One sweep clock: with the sweep enabled (bit 7) and a shift count
    /// other than zero, the period takes one sweep step.
    pub open spec fn spec_clock_sweep(&self) -> PulseChannel {
        if bit(self.sweep, 7) && self.sweep % 8 != 0 {
            PulseChannel { timer_reload: self.spec_swept_period(), ..*self }
        } else {
            *self
        }
    }

    pub fn new() -> (r: Self)
        ensures
            r == Self::spec_new(),
            r.wf(),
    {
        PulseChannel {
            enabled: false,
            volume: 15,
            duty_cycle: 0,
            duty_position: 0,
            timer: 0,
            timer_reload: 0,
            length_counter: 0,
            envelope: 15,
            constant_volume: false,
            envelope_loop: false,
            sweep: 0,
        }
    }

    pub fn tick(&mut self)
        requires
            old(self).wf(),
        ensures
            *final(self) == old(self).spec_tick(),
            final(self).wf(),
    {
        if self.enabled && self.length_counter > 0 {
            if self.timer > 0 {
                self.timer = self.timer - 1;
            } else {
                self.timer = self.timer_reload;
                self.duty_position = (self.duty_position + 1) % 8;
            }
        }
    }

    pub fn write_control(&mut self, value: u8)
        ensures
            *final(self) == old(self).spec_write_control(value),
    {
        self.constant_volume = bit(value, 4);
        self.volume = value % 16;
        self.envelope_loop = bit(value, 5);
        self.duty_cycle = value / 64;
    }

    pub fn write_sweep(&mut self, value: u8)
        ensures
            *final(self) == old(self).spec_write_sweep(value),
    {
        self.sweep = value;
    }

    pub fn write_timer_low(&mut self, value: u8)
        ensures
            *final(self) == old(self).spec_write_timer_low(value),
    {
        self.timer_reload = with_timer_low(self.timer_reload, value);
    }

    pub fn write_timer_high(&mut self, value: u8)
        ensures
            *final(self) == old(self).spec_write_timer_high(value),
    {
        self.timer_reload = with_timer_high(self.timer_reload, value);
        self.length_counter = length_load(value);
    }

    /// A write to the channel's register `register` (0 to 3): control,
    /// sweep, timer low, timer high.
    pub open spec fn spec_write_register(&self, register: u16, value: u8) -> PulseChannel {
        if register == 0 {
            self.spec_write_control(value)
        } else if register == 1 {
            self.spec_write_sweep(value)
        } else if register == 2 {
            self.spec_write_timer_low(value)
        } else if register == 3 {
            self.spec_write_timer_high(value)
        } else {
            *self
        }
    }

    pub fn write_register(&mut self, register: u16, value: u8)
        ensures
            *final(self) == old(self).spec_write_register(register, value),
    {
        if register == 0 {
            self.write_control(value);
        } else if register == 1 {
            self.write_sweep(value);
        } else if register == 2 {
            self.write_timer_low(value);
        } else if register == 3 {
            self.write_timer_high(value);
        }
    }

    pub fn set_enabled(&mut self, enabled: bool)
        ensures
            *final(self) == old(self).spec_set_enabled(enabled),
    {
        self.enabled = enabled;
        if !enabled {
            self.length_counter = 0;
        }
    }

    pub fn clock_envelope(&mut self)
        ensures
            *final(self) == old(self).spec_clock_envelope(),
    {
        if !self.constant_volume {
            if self.envelope > 0 {
                self.envelope = self.envelope - 1;
            } else if self.envelope_loop {
                self.envelope = self.volume;
            }
        }
    }

    pub fn clock_length(&mut self)
        ensures
            *final(self) == old(self).spec_clock_length(),
    {
        if !self.envelope_loop && self.length_counter > 0 {
            self.length_counter = self.length_counter - 1;
        }
    }

    pub fn clock_sweep(&mut self)
        ensures
            *final(self) == old(self).spec_clock_sweep(),
    {
        if bit(self.sweep, 7) && self.sweep % 8 != 0 {
            let change = self.timer_reload >> (self.sweep % 8);
            if bit(self.sweep, 3) {
                if change <= self.timer_reload {
                    self.timer_reload = self.timer_reload - change;
                }
            } else if change <= 0x7FF && self.timer_reload <= 0x7FF - change {
                self.timer_reload = self.timer_reload + change;
            }
        }
    }
}

#[derive(Clone, Copy, Debug, PartialEq, Eq, Structural)]
pub struct TriangleChannel {
    pub enabled: bool,
    pub timer: u16,
    pub timer_reload: u16,
    /// Position in the 32-step triangle sequence.
    pub sequence_position: u8,
    pub length_counter: u8,
    pub linear_counter: u8,
    pub linear_reload: u8,
    /// Keeps the linear counter reloading and halts the length counter.
    pub linear_control: bool,
    /// The next linear clock reloads the counter.
    pub linear_reload_flag: bool,
}

impl TriangleChannel {
    pub open spec fn wf(&self) -> bool {
        self.sequence_position < 32
    }

    pub open spec fn spec_new() -> TriangleChannel {
        TriangleChannel {
            enabled: false,
            timer: 0,
            timer_reload: 0,
            sequence_position: 0,
            length_counter: 0,
            linear_counter: 0,
            linear_reload: 0,
            linear_control: false,
            linear_reload_flag: false,
        }
    }

    /// One timer clock. The channel moves only while enabled with both
    /// counters above zero; then the timer counts down and, on reaching
    /// zero, reloads and moves the sequence one step.
    pub open spec fn spec_tick(&self) -> TriangleChannel {
        if !self.enabled || self.length_counter == 0 || self.linear_counter == 0 {
            *self
        } else if self.timer > 0 {
            TriangleChannel { timer: (self.timer - 1) as u16, ..*self }
        } else {
            TriangleChannel {
                timer: self.timer_reload,
                sequence_position: ((self.sequence_position + 1) % 32) as u8,
                ..*self
            }
        }
    }

    /// `$4008`: control in bit 7, the linear counter's reload value below.
    pub open spec fn spec_write_linear_counter(&self, value: u8) -> TriangleChannel {
        TriangleChannel { linear_reload: value % 128, linear_control: value >= 128, ..*self }
    }

    pub open spec fn spec_write_timer_low(&self, value: u8) -> TriangleChannel {
        TriangleChannel { timer_reload: with_timer_low(self.timer_reload, value), ..*self }
    }

    /// `$400B`: the timer's high bits, a fresh load of the length counter,
    /// and a reload of the linear counter at its next clock.
    pub open spec fn spec_write_timer_high(&self, value: u8) -> TriangleChannel {
        TriangleChannel {
            timer_reload: with_timer_high(self.timer_reload, value),
            length_counter: length_load(value),
            linear_reload_flag: true,
            ..*self
        }
    }

    pub open spec fn spec_set_enabled(&self, enabled: bool) -> TriangleChannel {
        TriangleChannel {
            enabled,
            length_counter: if enabled {
                self.length_counter
            } else {
                0
            },
            ..*self
        }
    }

    /// One linear clock: the counter reloads if asked to, else counts down
    /// to zero; without the control flag the request is then dropped.
    pub open spec fn spec_clock_linear(&self) -> TriangleChannel {
        TriangleChannel {
            linear_counter: if self.linear_reload_flag {
                self.linear_reload
            } else if self.linear_counter > 0 {
                (self.linear_counter - 1) as u8
            } else {
                0
            },
            linear_reload_flag: self.linear_reload_flag && self.linear_control,
            ..*self
        }
    }

    pub open spec fn spec_clock_length(&self) -> TriangleChannel {
        if !self.linear_control && self.length_counter > 0 {
            TriangleChannel { length_counter: (self.length_counter - 1) as u8, ..*self }
        } else {
            *self
        }
    }

    pub fn new() -> (r: Self)
        ensures
            r == Self::spec_new(),
            r.wf(),
    {
        TriangleChannel {
            enabled: false,
            timer: 0,
            timer_reload: 0,
            sequence_position: 0,
            length_counter: 0,
            linear_counter: 0,
            linear_reload: 0,
            linear_control: false,
            linear_reload_flag: false,
        }
    }

    pub fn tick(&mut self)
        requires
            old(self).wf(),
        ensures
            *final(self) == old(self).spec_tick(),
            final(self).wf(),
    {
        if self.enabled && self.length_counter > 0 && self.linear_counter > 0 {
            if self.timer > 0 {
                self.timer = self.timer - 1;
            } else {
                self.timer = self.timer_reload;
                self.sequence_position = (self.sequence_position + 1) % 32;
            }
        }
    }

    pub fn write_linear_counter(&mut self, value: u8)
        ensures
            *final(self) == old(self).spec_write_linear_counter(value),
    {
        self.linear_reload = value % 128;
        self.linear_control = value >= 128;
    }

    pub fn write_timer_low(&mut self, value: u8)
        ensures
            *final(self) == old(self).spec_write_timer_low(value),
    {
        self.timer_reload = with_timer_low(self.timer_reload, value);
    }

    pub fn write_timer_high(&mut self, value: u8)
        ensures
            *final(self) == old(self).spec_write_timer_high(value),
    {
        self.timer_reload = with_timer_high(self.timer_reload, value);
        self.length_counter = length_load(value);
        self.linear_reload_flag = true;
    }

    /// A write to the channel's register `register` (0 to 3): linear
    /// counter, unused, timer low, timer high.
    pub open spec fn spec_write_register(&self, register: u16, value: u8) -> TriangleChannel {
        if register == 0 {
            self.spec_write_linear_counter(value)
        } else if register == 2 {
            self.spec_write_timer_low(value)
        } else if register == 3 {
            self.spec_write_timer_high(value)
        } else {
            *self
        }
    }

    pub fn write_register(&mut self, register: u16, value: u8)
        ensures
            *final(self) == old(self).spec_write_register(register, value),
    {
        if register == 0 {
            self.write_linear_counter(value);
        } else if register == 2 {
            self.write_timer_low(value);
        } else if register == 3 {
            self.write_timer_high(value);
        }
    }

    pub fn set_enabled(&mut self, enabled: bool)
        ensures
            *final(self) == old(self).spec_set_enabled(enabled),
    {
        self.enabled = enabled;
        if !enabled {
            self.length_counter = 0;
        }
    }

    pub fn clock_linear(&mut self)
        ensures
            *final(self) == old(self).spec_clock_linear(),
    {
        if self.linear_reload_flag {
            self.linear_counter = self.linear_reload;
        } else if self.linear_counter > 0 {
            self.linear_counter = self.linear_counter - 1;
        }
        if !self.linear_control {
            self.linear_reload_flag = false;
        }
    }

    pub fn clock_length(&mut self)
        ensures
            *final(self) == old(self).spec_clock_length(),
    {
        if !self.linear_control && self.length_counter > 0 {
            self.length_counter = self.length_counter - 1;
        }
    }
}

#[derive(Clone, Copy, Debug, PartialEq, Eq, Structural)]
pub struct NoiseChannel {
    pub enabled: bool,
    pub timer: u16,
    pub timer_reload: u16,
    pub length_counter: u8,
    pub envelope: u8,
    pub constant_volume: bool,
    pub envelope_loop: bool,
    /// Feedback from bit 6 instead of bit 1.
    pub mode: bool,
    /// The 15-bit linear-feedback shift register, never zero.
    pub shift_register: u16,
}

/// The noise register after one step: it moves right by one and the
/// feedback, bit 0 XOR the tap bit, enters at bit 14.
pub open spec fn spec_lfsr_next(register: u16, mode: bool) -> u16 {
    let tap = if mode {
        (register / 64) % 2
    } else {
        (register / 2) % 2
    };
    (register / 2 + ((register % 2 + tap) % 2) * 0x4000) as u16
}

impl NoiseChannel {
    pub open spec fn wf(&self) -> bool {
        0 < self.shift_register < 0x8000
    }

    pub open spec fn spec_new() -> NoiseChannel {
        NoiseChannel {
            enabled: false,
            timer: 0,
            timer_reload: 0,
            length_counter: 0,
            envelope: 15,
            constant_volume: false,
            envelope_loop: false,
            mode: false,
            shift_register: 1,
        }
    }

    /// One timer clock. A silenced channel stands still; otherwise the timer
    /// counts down and, on reaching zero, reloads and steps the register.
    pub open spec fn spec_tick(&self) -> NoiseChannel {
        if !self.enabled || self.length_counter == 0 {
            *self
        } else if self.timer > 0 {
            NoiseChannel { timer: (self.timer - 1) as u16, ..*self }
        } else {
            NoiseChannel {
                timer: self.timer_reload,
                shift_register: spec_lfsr_next(self.shift_register, self.mode),
                ..*self
            }
        }
    }

    /// `$400C`: loop in bit 5, constant volume in bit 4, envelope in bits 3-0.
    pub open spec fn spec_write_control(&self, value: u8) -> NoiseChannel {
        NoiseChannel {
            constant_volume: bit(value, 4),
            envelope_loop: bit(value, 5),
            envelope: value % 16,
            ..*self
        }
    }

    /// `$400E`: mode in bit 7, the period's index in bits 3-0.
    pub open spec fn spec_write_timer(&self, value: u8) -> NoiseChannel {
        NoiseChannel {
            mode: value >= 128,
            timer_reload: NOISE_TIMER_TABLE[(value % 16) as int],
            ..*self
        }
    }

    /// `$400F`: a fresh load of the length counter.
    pub open spec fn spec_write_length_counter(&self, value: u8) -> NoiseChannel {
        NoiseChannel { length_counter: length_load(value), ..*self }
    }

    pub open spec fn spec_set_enabled(&self, enabled: bool) -> NoiseChannel {
        NoiseChannel {
            enabled,
            length_counter: if enabled {
                self.length_counter
            } else {
                0
            },
            ..*self
        }
    }

    /// One envelope clock: unless the volume is constant, the level decays
    /// by one and, in loop mode, starts again from 15.
    pub open spec fn spec_clock_envelope(&self) -> NoiseChannel {
        if self.constant_volume {
            *self
        } else if self.envelope > 0 {
            NoiseChannel { envelope: (self.envelope - 1) as u8, ..*self }
        } else if self.envelope_loop {
            NoiseChannel { envelope: 15, ..*self }
        } else {
            *self
        }
    }

    pub open spec fn spec_clock_length(&self) -> NoiseChannel {
        if !self.envelope_loop && self.length_counter > 0 {
            NoiseChannel { length_counter: (self.length_counter - 1) as u8, ..*self }
        } else {
            *self
        }
    }

    pub fn new() -> (r: Self)
        ensures
            r == Self::spec_new(),
            r.wf(),
    {
        NoiseChannel {
            enabled: false,
            timer: 0,
            timer_reload: 0,
            length_counter: 0,
            envelope: 15,
            constant_volume: false,
            envelope_loop: false,
            mode: false,
            shift_register: 1,
        }
    }

    pub fn tick(&mut self)
        requires
            old(self).wf(),
        ensures
            *final(self) == old(self).spec_tick(),
            final(self).wf(),
    {
        if self.enabled && self.length_counter > 0 {
            if self.timer > 0 {
                self.timer = self.timer - 1;
            } else {
                self.timer = self.timer_reload;
                let register = self.shift_register;
                let tap = if self.mode {
                    (register / 64) % 2
                } else {
                    (register / 2) % 2
                };
                self.shift_register = register / 2 + ((register % 2 + tap) % 2) * 0x4000;
            }
        }
    }

    pub fn write_control(&mut self, value: u8)
        ensures
            *final(self) == old(self).spec_write_control(value),
    {
        self.constant_volume = bit(value, 4);
        self.envelope_loop = bit(value, 5);
        self.envelope = value % 16;
    }

    pub fn write_timer(&mut self, value: u8)
        ensures
            *final(self) == old(self).spec_write_timer(value),
    {
        self.mode = value >= 128;
        self.timer_reload = NOISE_TIMER_TABLE[(value % 16) as usize];
    }

    pub fn write_length_counter(&mut self, value: u8)
        ensures
            *final(self) == old(self).spec_write_length_counter(value),
    {
        self.length_counter = length_load(value);
    }

    /// A write to the channel's register `register` (0 to 3): control,
    /// unused, period, length.
    pub open spec fn spec_write_register(&self, register: u16, value: u8) -> NoiseChannel {
        if register == 0 {
            self.spec_write_control(value)
        } else if register == 2 {
            self.spec_write_timer(value)
        } else if register == 3 {
            self.spec_write_length_counter(value)
        } else {
            *self
        }
    }

    pub fn write_register(&mut self, register: u16, value: u8)
        ensures
            *final(self) == old(self).spec_write_register(register, value),
    {
        if register == 0 {
            self.write_control(value);
        } else if register == 2 {
            self.write_timer(value);
        } else if register == 3 {
            self.write_length_counter(value);
        }
    }

    pub fn set_enabled(&mut self, enabled: bool)
        ensures
            *final(self) == old(self).spec_set_enabled(enabled),
    {
        self.enabled = enabled;
        if !enabled {
            self.length_counter = 0;
        }
    }

    pub fn clock_envelope(&mut self)
        ensures
            *final(self) == old(self).spec_clock_envelope(),
    {
        if !self.constant_volume {
            if self.envelope > 0 {
                self.envelope = self.envelope - 1;
            } else if self.envelope_loop {
                self.envelope = 15;
            }
        }
    }

    pub fn clock_length(&mut self)
        ensures
            *final(self) == old(self).spec_clock_length(),
    {
        if !self.envelope_loop && self.length_counter > 0 {
            self.length_counter = self.length_counter - 1;
        }
    }
}

#[derive(Clone, Copy, Debug, PartialEq, Eq, Structural)]
pub struct DMCChannel {
    pub enabled: bool,
    pub irq_enabled: bool,
    pub loop_flag: bool,
    pub timer: u16,
    pub timer_reload: u16,
    /// The 7-bit output level.
    pub output_level: u8,
    /// The sample byte waiting to be played, if any.
    pub sample_buffer: Option<u8>,
    pub sample_address: u16,
    pub sample_length: u16,
    pub current_sample: u8,
}

impl DMCChannel {
    pub open spec fn spec_new() -> DMCChannel {
        DMCChannel {
            enabled: false,
            irq_enabled: false,
            loop_flag: false,
            timer: 0,
            timer_reload: 0,
            output_level: 0,
            sample_buffer: None,
            sample_address: 0,
            sample_length: 0,
            current_sample: 0,
        }
    }

    /// One timer clock. A channel with no sample stands still; otherwise
    /// the timer counts down and, on reaching zero, reloads and lets a
    /// buffered byte set the output level.
    pub open spec fn spec_tick(&self) -> DMCChannel {
        if !self.enabled || self.sample_length == 0 {
            *self
        } else if self.timer > 0 {
            DMCChannel { timer: (self.timer - 1) as u16, ..*self }
        } else {
            DMCChannel {
                timer: self.timer_reload,
                output_level: match self.sample_buffer {
                    Some(sample) => sample % 128,
                    None => self.output_level,
                },
                ..*self
            }
        }
    }

    /// `$4010`: IRQ enable in bit 7, loop in bit 6, the rate's index in
    /// bits 3-0.
    pub open spec fn spec_write_control(&self, value: u8) -> DMCChannel {
        DMCChannel {
            irq_enabled: value >= 128,
            loop_flag: bit(value, 6),
            timer_reload: DMC_RATE_TABLE[(value % 16) as int],
            ..*self
        }
    }

    /// `$4011`: the output level, seven bits.
    pub open spec fn spec_write_output_level(&self, value: u8) -> DMCChannel {
        DMCChannel { output_level: value % 128, ..*self }
    }

    /// `$4012`: samples start at `$C000 + 64 * value`.
    pub open spec fn spec_write_sample_address(&self, value: u8) -> DMCChannel {
        DMCChannel { sample_address: (0xC000 + value * 64) as u16, ..*self }
    }

    /// `$4013`: samples are `16 * value + 1` bytes long.
    pub open spec fn spec_write_sample_length(&self, value: u8) -> DMCChannel {
        DMCChannel { sample_length: (value * 16 + 1) as u16, ..*self }
    }

    pub open spec fn spec_set_enabled(&self, enabled: bool) -> DMCChannel {
        DMCChannel {
            enabled,
            sample_length: if enabled {
                self.sample_length
            } else {
                0
            },
            ..*self
        }
    }

    pub fn new() -> (r: Self)
        ensures
            r == Self::spec_new(),
    {
        DMCChannel {
            enabled: false,
            irq_enabled: false,
            loop_flag: false,
            timer: 0,
            timer_reload: 0,
            output_level: 0,
            sample_buffer: None,
            sample_address: 0,
            sample_length: 0,
            current_sample: 0,
        }
    }

    pub fn tick(&mut self)
        ensures
            *final(self) == old(self).spec_tick(),
    {
        if self.enabled && self.sample_length > 0 {
            if self.timer > 0 {
                self.timer = self.timer - 1;
            } else {
                self.timer = self.timer_reload;
                if let Some(sample) = self.sample_buffer {
                    self.output_level = sample % 128;
                }
            }
        }
    }

    pub fn write_control(&mut self, value: u8)
        ensures
            *final(self) == old(self).spec_write_control(value),
    {
        self.irq_enabled = value >= 128;
        self.loop_flag = bit(value, 6);
        self.timer_reload = DMC_RATE_TABLE[(value % 16) as usize];
    }

    pub fn write_output_level(&mut self, value: u8)
        ensures
            *final(self) == old(self).spec_write_output_level(value),
    {
        self.output_level = value % 128;
    }

    pub fn write_sample_address(&mut self, value: u8)
        ensures
            *final(self) == old(self).spec_write_sample_address(value),
    {
        self.sample_address = 0xC000 + value as u16 * 64;
    }

    pub fn write_sample_length(&mut self, value: u8)
        ensures
            *final(self) == old(self).spec_write_sample_length(value),
    {
        self.sample_length = value as u16 * 16 + 1;
    }

    /// A write to the channel's register `register` (0 to 3): control,
    /// output level, sample address, sample length.
    pub open spec fn spec_write_register(&self, register: u16, value: u8) -> DMCChannel {
        if register == 0 {
            self.spec_write_control(value)
        } else if register == 1 {
            self.spec_write_output_level(value)
        } else if register == 2 {
            self.spec_write_sample_address(value)
        } else if register == 3 {
            self.spec_write_sample_length(value)
        } else {
            *self
        }
    }

    pub fn write_register(&mut self, register: u16, value: u8)
        ensures
            *final(self) == old(self).spec_write_register(register, value),
    {
        if register == 0 {
            self.write_control(value);
        } else if register == 1 {
            self.write_output_level(value);
        } else if register == 2 {
            self.write_sample_address(value);
        } else if register == 3 {
            self.write_sample_length(value);
        }
    }

    pub fn set_enabled(&mut self, enabled: bool)
        ensures
            *final(self) == old(self).spec_set_enabled(enabled),
    {
        self.enabled = enabled;
        if !enabled {
            self.sample_length = 0;
        }
    }
}

/// The five channels behind `$4000-$4017`.
#[derive(Clone, Copy, Debug, PartialEq, Eq, Structural)]
pub struct APU {
    pub pulse1: PulseChannel,
    pub pulse2: PulseChannel,
    pub triangle: TriangleChannel,
    pub noise: NoiseChannel,
    pub dmc: DMCChannel,
    /// The last byte written to `$4015`.
    pub status: u8,
    /// CPU cycles since the frame sequencer last stepped.
    pub frame_counter: u16,
    /// The sequencer's next step.
    pub sequence_step: u8,
    /// `$4017` bit 7: the sequence has five steps instead of four.
    pub five_step: bool,
    /// `$4017` bit 6.
    pub irq_inhibit: bool,
}

impl APU {
    pub open spec fn wf(&self) -> bool {
        &&& self.pulse1.wf()
        &&& self.pulse2.wf()
        &&& self.triangle.wf()
        &&& self.noise.wf()
        &&& self.frame_counter < SEQUENCER_PERIOD
        &&& self.sequence_step < self.spec_sequence_length()
    }

    /// Tests `wf`, for callers that Verus does not check.
    pub fn is_wf(&self) -> (r: bool)
        ensures
            r == self.wf(),
    {
        let length: u8 = if self.five_step {
            5
        } else {
            4
        };
        self.pulse1.duty_position < 8 && self.pulse2.duty_position < 8
            && self.triangle.sequence_position < 32 && 0 < self.noise.shift_register
            && self.noise.shift_register < 0x8000 && self.frame_counter < SEQUENCER_PERIOD
            && self.sequence_step < length
    }

    pub open spec fn spec_new() -> APU {
        APU {
            pulse1: PulseChannel::spec_new(),
            pulse2: PulseChannel::spec_new(),
            triangle: TriangleChannel::spec_new(),
            noise: NoiseChannel::spec_new(),
            dmc: DMCChannel::spec_new(),
            status: 0,
            frame_counter: 0,
            sequence_step: 0,
            five_step: false,
            irq_inhibit: false,
        }
    }

    pub open spec fn spec_sequence_length(&self) -> u8 {
        if self.five_step {
            5
        } else {
            4
        }
    }

    /// A quarter-frame clock: the envelopes and the triangle's linear counter.
    pub open spec fn spec_clock_quarter(&self) -> APU {
        APU {
            pulse1: self.pulse1.spec_clock_envelope(),
            pulse2: self.pulse2.spec_clock_envelope(),
            triangle: self.triangle.spec_clock_linear(),
            noise: self.noise.spec_clock_envelope(),
            ..*self
        }
    }

    /// A half-frame clock: the length counters and the sweeps.
    pub open spec fn spec_clock_half(&self) -> APU {
        APU {
            pulse1: self.pulse1.spec_clock_length().spec_clock_sweep(),
            pulse2: self.pulse2.spec_clock_length().spec_clock_sweep(),
            triangle: self.triangle.spec_clock_length(),
            noise: self.noise.spec_clock_length(),
            ..*self
        }
    }

    /// This step of the sequence gives a quarter-frame clock: every step but
    /// the fourth of five.
    pub open spec fn spec_quarter_due(&self) -> bool {
        !(self.five_step && self.sequence_step == 3)
    }

    /// This step of the sequence gives a half-frame clock: the second and
    /// the last.
    pub open spec fn spec_half_due(&self) -> bool {
        self.sequence_step == 1 || self.sequence_step + 1 == self.spec_sequence_length()
    }

    /// One step of the frame sequencer.
    pub open spec fn spec_sequence(&self) -> APU {
        let quartered = if self.spec_quarter_due() {
            self.spec_clock_quarter()
        } else {
            *self
        };
        let halved = if self.spec_half_due() {
            quartered.spec_clock_half()
        } else {
            quartered
        };
        APU {
            sequence_step: ((self.sequence_step + 1) % (self.spec_sequence_length() as int)) as u8,
            ..halved
        }
    }

    /// One CPU cycle: every channel's timer is clocked, and every
    /// `SEQUENCER_PERIOD` cycles the frame sequencer steps.
    #[verifier::opaque]
    pub open spec fn spec_tick(&self) -> APU {
        let ticked = APU {
            pulse1: self.pulse1.spec_tick(),
            pulse2: self.pulse2.spec_tick(),
            triangle: self.triangle.spec_tick(),
            noise: self.noise.spec_tick(),
            dmc: self.dmc.spec_tick(),
            ..*self
        };
        if self.frame_counter + 1 >= SEQUENCER_PERIOD {
            APU { frame_counter: 0, ..ticked }.spec_sequence()
        } else {
            APU { frame_counter: (self.frame_counter + 1) as u16, ..ticked }
        }
    }

    /// `$4015` write: bits 0 to 4 enable pulse 1, pulse 2, triangle, noise
    /// and DMC.
    pub open spec fn spec_write_status(&self, value: u8) -> APU {
        APU {
            status: value,
            pulse1: self.pulse1.spec_set_enabled(bit(value, 0)),
            pulse2: self.pulse2.spec_set_enabled(bit(value, 1)),
            triangle: self.triangle.spec_set_enabled(bit(value, 2)),
            noise: self.noise.spec_set_enabled(bit(value, 3)),
            dmc: self.dmc.spec_set_enabled(bit(value, 4)),
            ..*self
        }
    }

    /// `$4017` write: bit 7 selects the five-step sequence, bit 6 inhibits
    /// the frame IRQ, and the sequencer starts over.
    pub open spec fn spec_write_frame_counter(&self, value: u8) -> APU {
        APU {
            five_step: value >= 128,
            irq_inhibit: bit(value, 6),
            frame_counter: 0,
            sequence_step: 0,
            ..*self
        }
    }

    /// A write to an APU register: four registers per channel from
    /// `$4000`, then `$4015` and `$4017`. Other addresses change nothing.
    pub open spec fn spec_write_register(&self, addr: u16, value: u8) -> APU {
        let register = (addr % 4) as u16;
        if 0x4000 <= addr < 0x4004 {
            APU { pulse1: self.pulse1.spec_write_register(register, value), ..*self }
        } else if 0x4004 <= addr < 0x4008 {
            APU { pulse2: self.pulse2.spec_write_register(register, value), ..*self }
        } else if 0x4008 <= addr < 0x400C {
            APU { triangle: self.triangle.spec_write_register(register, value), ..*self }
        } else if 0x400C <= addr < 0x4010 {
            APU { noise: self.noise.spec_write_register(register, value), ..*self }
        } else if 0x4010 <= addr < 0x4014 {
            APU { dmc: self.dmc.spec_write_register(register, value), ..*self }
        } else if addr == 0x4015 {
            self.spec_write_status(value)
        } else if addr == 0x4017 {
            self.spec_write_frame_counter(value)
        } else {
            *self
        }
    }

    /// `$4015` read: bits 0 to 3 tell which length counters are above zero,
    /// bit 4 whether the DMC has bytes left. Other addresses read 0.
    pub open spec fn spec_read_register(&self, addr: u16) -> u8 {
        if addr == 0x4015 {
            (if self.pulse1.length_counter > 0 {
                1int
            } else {
                0int
            } + if self.pulse2.length_counter > 0 {
                2int
            } else {
                0int
            } + if self.triangle.length_counter > 0 {
                4int
            } else {
                0int
            } + if self.noise.length_counter > 0 {
                8int
            } else {
                0int
            } + if self.dmc.sample_length > 0 {
                16int
            } else {
                0int
            }) as u8
        } else {
            0
        }
    }

    pub fn new() -> (r: Self)
        ensures
            r == Self::spec_new(),
            r.wf(),
    {
        APU {
            pulse1: PulseChannel::new(),
            pulse2: PulseChannel::new(),
            triangle: TriangleChannel::new(),
            noise: NoiseChannel::new(),
            dmc: DMCChannel::new(),
            status: 0,
            frame_counter: 0,
            sequence_step: 0,
            five_step: false,
            irq_inhibit: false,
        }
    }

    fn clock_quarter(&mut self)
        ensures
            *final(self) == old(self).spec_clock_quarter(),
    {
        self.pulse1.clock_envelope();
        self.pulse2.clock_envelope();
        self.triangle.clock_linear();
        self.noise.clock_envelope();
    }

    fn clock_half(&mut self)
        ensures
            *final(self) == old(self).spec_clock_half(),
    {
        self.pulse1.clock_length();
        self.pulse1.clock_sweep();
        self.pulse2.clock_length();
        self.pulse2.clock_sweep();
        self.triangle.clock_length();
        self.noise.clock_length();
    }

    fn sequence(&mut self)
        requires
            old(self).wf(),
        ensures
            *final(self) == old(self).spec_sequence(),
            final(self).wf(),
    {
        let length: u8 = if self.five_step {
            5
        } else {
            4
        };
        let step = self.sequence_step;
        if !(self.five_step && step == 3) {
            self.clock_quarter();
        }
        if step == 1 || step + 1 == length {
            self.clock_half();
        }
        self.sequence_step = (step + 1) % length;
    }

    /// Advances the APU by one CPU cycle.
    pub fn tick(&mut self)
        requires
            old(self).wf(),
        ensures
            *final(self) == old(self).spec_tick(),
            final(self).wf(),
    {
        reveal(APU::spec_tick);
        self.pulse1.tick();
        self.pulse2.tick();
        self.triangle.tick();
        self.noise.tick();
        self.dmc.tick();
        if self.frame_counter + 1 >= SEQUENCER_PERIOD {
            self.frame_counter = 0;
            self.sequence();
        } else {
            self.frame_counter = self.frame_counter + 1;
        }
    }

    fn write_status(&mut self, value: u8)
        ensures
            *final(self) == old(self).spec_write_status(value),
    {
        self.status = value;
        self.pulse1.set_enabled(bit(value, 0));
        self.pulse2.set_enabled(bit(value, 1));
        self.triangle.set_enabled(bit(value, 2));
        self.noise.set_enabled(bit(value, 3));
        self.dmc.set_enabled(bit(value, 4));
    }

    pub fn write_register(&mut self, addr: u16, value: u8)
        requires
            old(self).wf(),
        ensures
            *final(self) == old(self).spec_write_register(addr, value),
            final(self).wf(),
    {
        let register = addr % 4;
        if 0x4000 <= addr && addr < 0x4004 {
            self.pulse1.write_register(register, value);
        } else if 0x4004 <= addr && addr < 0x4008 {
            self.pulse2.write_register(register, value);
        } else if 0x4008 <= addr && addr < 0x400C {
            self.triangle.write_register(register, value);
        } else if 0x400C <= addr && addr < 0x4010 {
            self.noise.write_register(register, value);
        } else if 0x4010 <= addr && addr < 0x4014 {
            self.dmc.write_register(register, value);
        } else if addr == 0x4015 {
            self.write_status(value);
        } else if addr == 0x4017 {
            self.five_step = value >= 128;
            self.irq_inhibit = bit(value, 6);
            self.frame_counter = 0;
            self.sequence_step = 0;
        }
    }

    pub fn read_register(&self, addr: u16) -> (r: u8)
        ensures
            r == self.spec_read_register(addr),
    {
        if addr == 0x4015 {
            let mut flags: u8 = 0;
            if self.pulse1.length_counter > 0 {
                flags = flags + 1;
            }
            if self.pulse2.length_counter > 0 {
                flags = flags + 2;
            }
            if self.triangle.length_counter > 0 {
                flags = flags + 4;
            }
            if self.noise.length_counter > 0 {
                flags = flags + 8;
            }
            if self.dmc.sample_length > 0 {
                flags = flags + 16;
            }
            flags
        } else {
            0
        }
    }
}

} // verus!
