use vstd::prelude::*;

use crate::apu::envelope::Envelope;
use crate::apu::length_counter::{spec_length_table, LengthCounter};
use crate::apu::sweep::{NegateBehavior, Sweep};

verus! {

//                  Sweep -----> Timer
//                    |            |
//                    |            |
//                    |            v
//                    |        Sequencer   Length Counter
//                    |            |             |
//                    |            |             |
//                    v            v             v
// Envelope -------> Gate -----> Gate -------> Gate ---> (to mixer)
/// A pulse (square wave) channel.
pub struct PulseChannel {
    length_counter: LengthCounter,

    enabled: bool,

    sweep: Sweep,
    envelope: Envelope,
    sequencer: Sequencer,
}

impl PulseChannel {
    pub closed spec fn spec_length_counter(&self) -> LengthCounter {
        self.length_counter
    }

    pub closed spec fn spec_enabled(&self) -> bool {
        self.enabled
    }

    pub closed spec fn spec_sweep(&self) -> Sweep {
        self.sweep
    }

    pub closed spec fn spec_envelope(&self) -> Envelope {
        self.envelope
    }

    pub closed spec fn spec_sequencer(&self) -> Sequencer {
        self.sequencer
    }

    /// Silenced while disabled, muted by the sweep, out of length, or off duty.
    pub open spec fn spec_muted(&self) -> bool {
        ||| !self.spec_enabled()
        ||| self.spec_sweep().spec_muting()
        ||| self.spec_length_counter().spec_count() == 0
        ||| !Duty::spec_waveform_bit(self.spec_sequencer().spec_duty().spec_waveform(), self.spec_sequencer().spec_index())
    }

    /// A channel whose sweep negates as `negate_behavior` says (ones' complement for the first
    /// pulse channel, two's complement for the second).
    pub fn new(negate_behavior: NegateBehavior) -> (r: PulseChannel)
        ensures
            !r.spec_enabled(),
            r.spec_length_counter().spec_count() == 0,
            r.spec_sweep().spec_negate_behavior() == negate_behavior,
            r.spec_sweep().spec_frequency_timer().spec_period() == 0,
            r.spec_sequencer().spec_index() == 0,
            r.spec_sequencer().spec_duty() == Duty::Low,
    {
        PulseChannel {
            length_counter: LengthCounter::new(),
            enabled: false,
            sweep: Sweep::new(negate_behavior),
            envelope: Envelope::new(),
            sequencer: Sequencer::new(),
        }
    }

    /// Write 0x4000 or 0x4004: `ddhc eeee`, the duty, the length counter halt flag, the constant
    /// volume flag and the envelope parameter.
    pub fn set_control(&mut self, value: u8)
        ensures
            final(self).spec_sequencer().spec_duty() == Duty::spec_from_u8(value / 64),
            final(self).spec_sequencer().spec_index() == old(self).spec_sequencer().spec_index(),
            final(self).spec_length_counter().spec_halt() == (value & 0x20 != 0),
            final(self).spec_length_counter().spec_count() == old(self).spec_length_counter().spec_count(),
            final(self).spec_envelope().spec_use_constant_volume() == (value & 0x10 != 0),
            final(self).spec_envelope().spec_divider().spec_reload_value() == value % 16,
            final(self).spec_envelope().spec_divider().spec_count()
                == old(self).spec_envelope().spec_divider().spec_count(),
            final(self).spec_envelope().spec_start() == old(self).spec_envelope().spec_start(),
            final(self).spec_envelope().spec_decay_level() == old(self).spec_envelope().spec_decay_level(),
            final(self).spec_enabled() == old(self).spec_enabled(),
            final(self).spec_sweep() == old(self).spec_sweep(),
    {
        let duty = value >> 6;
        let halt = value & 0x20 != 0;
        let constant_volume = value & 0x10 != 0;
        let envelope_arg = value & 0x0F;
        assert(duty == value / 64 && envelope_arg == value % 16) by (bit_vector)
            requires
                duty == value >> 6,
                envelope_arg == value & 0x0F,
        ;
        self.sequencer.set_duty(Duty::from_u8(duty));
        self.length_counter.start_halt(halt);
        self.envelope.set_control(constant_volume, envelope_arg);
    }

    /// Write 0x4001 or 0x4005: `eppp nsss`, the sweep's enable flag, divider period, negate
    /// flag and shift count.
    pub fn set_sweep(&mut self, value: u8)
        ensures
            final(self).spec_sweep().spec_enabled() == (value >= 128),
            final(self).spec_sweep().spec_divider_period() == (value / 16) % 8,
            final(self).spec_sweep().spec_negate() == (value & 0x08 != 0),
            final(self).spec_sweep().spec_shift_count() == value % 8,
            final(self).spec_sweep().spec_reload(),
            final(self).spec_sweep().spec_divider() == old(self).spec_sweep().spec_divider(),
            final(self).spec_sweep().spec_negate_behavior() == old(self).spec_sweep().spec_negate_behavior(),
            final(self).spec_sweep().spec_frequency_timer() == old(self).spec_sweep().spec_frequency_timer(),
            final(self).spec_length_counter() == old(self).spec_length_counter(),
            final(self).spec_enabled() == old(self).spec_enabled(),
            final(self).spec_envelope() == old(self).spec_envelope(),
            final(self).spec_sequencer() == old(self).spec_sequencer(),
    {
        let enabled = value >= 128;
        let period = (value >> 4) & 0b111;
        let negate = value & 0x08 != 0;
        let shift_count = value & 0b111;
        assert(period == (value / 16) % 8 && shift_count == value % 8) by (bit_vector)
            requires
                period == (value >> 4) & 0b111,
                shift_count == value & 0b111,
        ;
        self.sweep.set(enabled, period, negate, shift_count);
    }

    /// Write 0x4002 or 0x4006: the low byte of the period.
    pub fn set_period_low(&mut self, value: u8)
        ensures
            final(self).spec_sweep().spec_frequency_timer().spec_period()
                == 256 * ((old(self).spec_sweep().spec_frequency_timer().spec_period() / 256) % 8) + value,
            final(self).spec_sweep().spec_frequency_timer().spec_index()
                == old(self).spec_sweep().spec_frequency_timer().spec_index(),
            final(self).spec_sweep().spec_enabled() == old(self).spec_sweep().spec_enabled(),
            final(self).spec_sweep().spec_divider() == old(self).spec_sweep().spec_divider(),
            final(self).spec_sweep().spec_reload() == old(self).spec_sweep().spec_reload(),
            final(self).spec_length_counter() == old(self).spec_length_counter(),
            final(self).spec_enabled() == old(self).spec_enabled(),
            final(self).spec_envelope() == old(self).spec_envelope(),
            final(self).spec_sequencer() == old(self).spec_sequencer(),
    {
        self.sweep.set_current_period_low(value);
    }

    /// Write 0x4003 or 0x4007: `llll lppp`, the length index (loaded only while enabled) and the
    /// top three bits of the period. Restarts the envelope, the sequencer and the timer.
    pub fn set_length_and_period_high(&mut self, value: u8)
        ensures
            final(self).spec_length_counter().spec_count() == (if old(self).spec_enabled() {
                spec_length_table()[(value / 8) as int]
            } else {
                old(self).spec_length_counter().spec_count()
            }),
            final(self).spec_length_counter().spec_halt() == old(self).spec_length_counter().spec_halt(),
            final(self).spec_envelope().spec_start(),
            final(self).spec_envelope().spec_divider() == old(self).spec_envelope().spec_divider(),
            final(self).spec_envelope().spec_decay_level() == old(self).spec_envelope().spec_decay_level(),
            final(self).spec_sequencer().spec_index() == 0,
            final(self).spec_sequencer().spec_duty() == old(self).spec_sequencer().spec_duty(),
            final(self).spec_sweep().spec_frequency_timer().spec_period()
                == old(self).spec_sweep().spec_frequency_timer().spec_period() % 256 + 256 * (value % 8),
            final(self).spec_sweep().spec_frequency_timer().spec_index()
                == final(self).spec_sweep().spec_frequency_timer().spec_period(),
            final(self).spec_enabled() == old(self).spec_enabled(),
    {
        let length = value / 8;
        let period = value % 8;
        if self.enabled {
            self.length_counter.start_reload(length);
        }

        self.envelope.start();
        self.sequencer.reset();
        self.sweep.set_current_period_high_and_reset_index(period);
    }

    /// Write 0x4015: disabling the channel also clears its length.
    pub fn set_enabled(&mut self, enabled: bool)
        ensures
            final(self).spec_enabled() == enabled,
            final(self).spec_length_counter().spec_count() == (if enabled {
                old(self).spec_length_counter().spec_count()
            } else {
                0
            }),
            final(self).spec_length_counter().spec_halt() == old(self).spec_length_counter().spec_halt(),
            final(self).spec_sweep() == old(self).spec_sweep(),
            final(self).spec_envelope() == old(self).spec_envelope(),
            final(self).spec_sequencer() == old(self).spec_sequencer(),
    {
        self.enabled = enabled;
        if !self.enabled {
            self.length_counter.set_to_zero();
        }
    }

    /// Read 0x4015: whether the length counter is still running.
    pub fn active(&self) -> (r: bool)
        ensures
            r == (self.spec_length_counter().spec_count() != 0),
    {
        !self.length_counter.is_zero()
    }

    /// Every PUT cycle: clocks the timer, which steps the sequencer when it wraps around.
    pub fn tick_put(&mut self)
        ensures
            final(self).spec_sequencer().spec_index() == (
                if old(self).spec_sweep().spec_frequency_timer().spec_period() != 0
                    && old(self).spec_sweep().spec_frequency_timer().spec_index() == 0 {
                    (old(self).spec_sequencer().spec_index() + 1) % 8
                } else {
                    old(self).spec_sequencer().spec_index() as int
                }
            ),
            final(self).spec_sequencer().spec_duty() == old(self).spec_sequencer().spec_duty(),
            final(self).spec_sweep().spec_frequency_timer().spec_period()
                == old(self).spec_sweep().spec_frequency_timer().spec_period(),
            final(self).spec_length_counter() == old(self).spec_length_counter(),
            final(self).spec_enabled() == old(self).spec_enabled(),
            final(self).spec_envelope() == old(self).spec_envelope(),
    {
        let triggered = self.sweep.tick_frequency_timer();
        if triggered {
            self.sequencer.step();
        }
    }

    /// Every quarter frame.
    pub fn tick_envelope(&mut self)
        ensures
            !final(self).spec_envelope().spec_start(),
            (final(self).spec_envelope().spec_divider(), final(self).spec_envelope().spec_decay_level())
                == old(self).spec_envelope().stepped(),
            final(self).spec_envelope().spec_use_constant_volume()
                == old(self).spec_envelope().spec_use_constant_volume(),
            final(self).spec_length_counter() == old(self).spec_length_counter(),
            final(self).spec_enabled() == old(self).spec_enabled(),
            final(self).spec_sweep() == old(self).spec_sweep(),
            final(self).spec_sequencer() == old(self).spec_sequencer(),
    {
        self.envelope.step();
    }

    /// Every half frame.
    pub fn tick_sweep(&mut self)
        ensures
            final(self).spec_sweep().spec_frequency_timer().spec_period() == (
                if old(self).spec_sweep().spec_divider() == 0 && old(self).spec_sweep().spec_enabled()
                    && old(self).spec_sweep().spec_shift_count() > 0 && !old(self).spec_sweep().spec_muting() {
                    old(self).spec_sweep().spec_target()
                } else {
                    old(self).spec_sweep().spec_frequency_timer().spec_period() as int
                }
            ),
            final(self).spec_length_counter() == old(self).spec_length_counter(),
            final(self).spec_enabled() == old(self).spec_enabled(),
            final(self).spec_envelope() == old(self).spec_envelope(),
            final(self).spec_sequencer() == old(self).spec_sequencer(),
    {
        self.sweep.tick();
    }

    /// Zero while muted; else the envelope's volume.
    pub fn sample_volume(&self) -> (r: u8)
        ensures
            r == (if self.spec_muted() { 0 } else { self.spec_envelope().spec_volume() }),
            r < 16,
    {
        if self.muted() {
            0
        } else {
            self.envelope.volume()
        }
    }

    fn muted(&self) -> (r: bool)
        ensures
            r == self.spec_muted(),
    {
        !self.enabled
            || self.sweep.muting()
            || self.length_counter.is_zero()
            || !self.sequencer.on_duty()
    }
}

/// Steps through the eight positions of a duty cycle.
pub struct Sequencer {
    index: u32,
    duty: Duty,
}

impl Sequencer {
    #[verifier::type_invariant]
    closed spec fn index_in_range(&self) -> bool {
        self.index < 8
    }

    pub closed spec fn spec_index(&self) -> u32 {
        self.index
    }

    pub closed spec fn spec_duty(&self) -> Duty {
        self.duty
    }

    pub fn new() -> (r: Sequencer)
        ensures
            r.spec_index() == 0,
            r.spec_duty() == Duty::Low,
    {
        Sequencer { index: 0, duty: Duty::Low }
    }

    pub fn reset(&mut self)
        ensures
            final(self).spec_index() == 0,
            final(self).spec_duty() == old(self).spec_duty(),
        no_unwind
    {
        self.index = 0;
    }

    pub fn step(&mut self)
        ensures
            final(self).spec_index() == (old(self).spec_index() + 1) % 8,
            final(self).spec_duty() == old(self).spec_duty(),
        no_unwind
    {
        proof {
            use_type_invariant(&*self);
        }
        self.index = (self.index + 1) % 8;
    }

    /// Whether the current position of the sequence is high: bit `7 - index` of the duty's waveform.
    pub fn on_duty(&self) -> (r: bool)
        ensures
            r == Duty::spec_waveform_bit(self.spec_duty().spec_waveform(), self.spec_index()),
    {
        proof {
            use_type_invariant(self);
        }
        let waveform = self.duty.waveform();
        let index = self.index;
        let r = waveform & (0b1000_0000u8 >> index) != 0;
        assert(r == Duty::spec_waveform_bit(waveform, index)) by (bit_vector)
            requires
                index < 8,
                r == (waveform & (0b1000_0000u8 >> index) != 0),
        ;
        r
    }

    pub fn set_duty(&mut self, duty: Duty)
        ensures
            final(self).spec_duty() == duty,
            final(self).spec_index() == old(self).spec_index(),
        no_unwind
    {
        proof {
            use_type_invariant(&*self);
        }
        self.duty = duty;
    }
}

impl Default for Sequencer {
    fn default() -> (r: Sequencer)
        ensures
            r.spec_index() == 0,
            r.spec_duty() == Duty::Low,
    {
        Sequencer::new()
    }
}

/// The four duty cycles of a pulse channel. Each is an eight step waveform, first step in the high bit.
#[derive(PartialEq, Eq, Clone, Copy, Debug, Structural)]
pub enum Duty {
    Low,
    Medium,
    High,
    Negated,
}

impl Duty {
    pub open spec fn spec_waveform(self) -> u8 {
        match self {
            Duty::Low => 0b0100_0000,
            Duty::Medium => 0b0110_0000,
            Duty::High => 0b0111_1000,
            Duty::Negated => 0b1001_1111,
        }
    }

    /// Whether step `index` (0 through 7) of the waveform is high.
    pub open spec fn spec_waveform_bit(waveform: u8, index: u32) -> bool {
        (waveform >> (7 - index) as u8) % 2 == 1
    }

    pub open spec fn spec_from_u8(value: u8) -> Duty {
        if value == 0 {
            Duty::Low
        } else if value == 1 {
            Duty::Medium
        } else if value == 2 {
            Duty::High
        } else {
            Duty::Negated
        }
    }

    pub fn waveform(self) -> (r: u8)
        ensures
            r == self.spec_waveform(),
    {
        match self {
            Duty::Low => 0b0100_0000,
            Duty::Medium => 0b0110_0000,
            Duty::High => 0b0111_1000,
            Duty::Negated => 0b1001_1111,
        }
    }

    /// The duty selected by two bits of a control register.
    pub fn from_u8(value: u8) -> (r: Duty)
        requires
            value < 4,
        ensures
            r == Self::spec_from_u8(value),
    {
        match value {
            0 => Duty::Low,
            1 => Duty::Medium,
            2 => Duty::High,
            _ => Duty::Negated,
        }
    }
}

impl Default for Duty {
    fn default() -> (r: Duty)
        ensures
            r == Duty::Low,
    {
        Duty::Low
    }
}

/// The four duty cycles over the eight steps of a sequence: 12.5% (high at step 1 only), 25%
/// (high at steps 1 and 2), 50% (high at steps 1 through 4), and 25% negated (high exactly where
/// the 25% cycle is low, six steps of eight).
pub proof fn lemma_duty_cycles(step: u32)
    requires
        step < 8,
    ensures
        Duty::spec_waveform_bit(Duty::Low.spec_waveform(), step) <==> step == 1,
        Duty::spec_waveform_bit(Duty::Medium.spec_waveform(), step) <==> (step == 1 || step == 2),
        Duty::spec_waveform_bit(Duty::High.spec_waveform(), step) <==> (1 <= step <= 4),
        Duty::spec_waveform_bit(Duty::Negated.spec_waveform(), step)
            <==> !Duty::spec_waveform_bit(Duty::Medium.spec_waveform(), step),
{
    let low = Duty::Low.spec_waveform();
    let medium = Duty::Medium.spec_waveform();
    let high = Duty::High.spec_waveform();
    let negated = Duty::Negated.spec_waveform();
    assert({
        &&& ((low >> (7 - step) as u8) % 2 == 1) <==> step == 1
        &&& ((medium >> (7 - step) as u8) % 2 == 1) <==> (step == 1 || step == 2)
        &&& ((high >> (7 - step) as u8) % 2 == 1) <==> (1 <= step <= 4)
        &&& ((negated >> (7 - step) as u8) % 2 == 1) <==> !((medium >> (7 - step) as u8) % 2 == 1)
    }) by (bit_vector)
        requires
            step < 8,
            low == 0b0100_0000u8,
            medium == 0b0110_0000u8,
            high == 0b0111_1000u8,
            negated == 0b1001_1111u8,
    ;
}

} // verus!
