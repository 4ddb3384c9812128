use vstd::prelude::*;

use crate::apu::envelope::Envelope;
use crate::apu::frequency_timer::FrequencyTimer;
use crate::apu::length_counter::{spec_length_table, LengthCounter};

verus! {

/// The NTSC timer periods that the 4-bit period index of register 0x400E selects.
pub open spec fn spec_ntsc_periods() -> Seq<u16> {
    seq![4, 8, 16, 32, 64, 96, 128, 160, 202, 254, 380, 508, 762, 1016, 2034, 4068]
}

fn ntsc_period(index: u8) -> (r: u16)
    requires
        index < 16,
    ensures
        r == spec_ntsc_periods()[index as int],
{
    match index {
        0 => 4, 1 => 8, 2 => 16, 3 => 32, 4 => 64, 5 => 96, 6 => 128, 7 => 160,
        8 => 202, 9 => 254, 10 => 380, 11 => 508, 12 => 762, 13 => 1016, 14 => 2034, _ => 4068,
    }
}

//    Timer --> Shift Register   Length Counter
//                   |                |
//                   v                v
// Envelope -------> Gate ----------> Gate --> (to mixer)
/// The noise channel: a pseudo-random bit stream, gated by the length counter.
pub struct NoiseChannel {
    length_counter: LengthCounter,

    enabled: bool,
    frequency_timer: FrequencyTimer,
    shift_register: LinearFeedbackShiftRegister,
    envelope: Envelope,
    bit_6_mode: bool,
}

impl NoiseChannel {
    pub closed spec fn spec_length_counter(&self) -> LengthCounter {
        self.length_counter
    }

    pub closed spec fn spec_enabled(&self) -> bool {
        self.enabled
    }

    pub closed spec fn spec_frequency_timer(&self) -> FrequencyTimer {
        self.frequency_timer
    }

    pub closed spec fn spec_shift_register(&self) -> LinearFeedbackShiftRegister {
        self.shift_register
    }

    pub closed spec fn spec_envelope(&self) -> Envelope {
        self.envelope
    }

    pub closed spec fn spec_bit_6_mode(&self) -> bool {
        self.bit_6_mode
    }

    /// The shift register bit that is fed back with bit 0: bit 6 in short mode, else bit 1.
    pub open spec fn spec_feedback_index(&self) -> u8 {
        if self.spec_bit_6_mode() {
            6
        } else {
            1
        }
    }

    pub fn new() -> (r: NoiseChannel)
        ensures
            !r.spec_enabled(),
            !r.spec_bit_6_mode(),
            r.spec_length_counter().spec_count() == 0,
            r.spec_shift_register().spec_bits() == 1,
            r.spec_frequency_timer().spec_period() == 0,
            r.spec_frequency_timer().spec_index() == 0,
            !r.spec_length_counter().spec_halt(),
            !r.spec_envelope().spec_start(),
            !r.spec_envelope().spec_use_constant_volume(),
            r.spec_envelope().spec_divider().spec_count() == 0,
            r.spec_envelope().spec_divider().spec_reload_value() == 0,
            r.spec_envelope().spec_decay_level().spec_volume() == 0,
            !r.spec_envelope().spec_decay_level().spec_should_loop(),
    {
        NoiseChannel {
            enabled: false,
            length_counter: LengthCounter::new(),
            frequency_timer: FrequencyTimer::new(),
            shift_register: LinearFeedbackShiftRegister::new(),
            envelope: Envelope::new(),
            bit_6_mode: false,
        }
    }

    /// Write 0x400C: `..hc eeee`, the length counter halt flag, the constant volume flag and
    /// the envelope parameter.
    pub fn set_control(&mut self, value: u8)
        ensures
            final(self).spec_length_counter().spec_halt() == (value & 0x20 != 0),
            final(self).spec_length_counter().spec_count() == old(self).spec_length_counter().spec_count(),
            final(self).spec_envelope().spec_use_constant_volume() == (value & 0x10 != 0),
            final(self).spec_envelope().spec_divider().spec_reload_value() == value % 16,
            final(self).spec_envelope().spec_divider().spec_count()
                == old(self).spec_envelope().spec_divider().spec_count(),
            final(self).spec_envelope().spec_start() == old(self).spec_envelope().spec_start(),
            final(self).spec_envelope().spec_decay_level() == old(self).spec_envelope().spec_decay_level(),
            final(self).spec_enabled() == old(self).spec_enabled(),
            final(self).spec_frequency_timer() == old(self).spec_frequency_timer(),
            final(self).spec_shift_register() == old(self).spec_shift_register(),
            final(self).spec_bit_6_mode() == old(self).spec_bit_6_mode(),
    {
        let halt = value & 0x20 != 0;
        let constant_volume = value & 0x10 != 0;
        let reload_value = value & 0x0F;
        assert(reload_value == value % 16) by (bit_vector)
            requires
                reload_value == value & 0x0F,
        ;
        self.length_counter.start_halt(halt);
        self.envelope.set_control(constant_volume, reload_value);
    }

    /// Write 0x400E: `m... pppp`, the short (bit 6) mode flag and the index of the timer period.
    pub fn set_loop_and_period(&mut self, value: u8)
        ensures
            final(self).spec_bit_6_mode() == (value >= 128),
            final(self).spec_frequency_timer().spec_period() == spec_ntsc_periods()[(value % 16) as int],
            final(self).spec_frequency_timer().spec_index() == spec_ntsc_periods()[(value % 16) as int],
            final(self).spec_length_counter() == old(self).spec_length_counter(),
            final(self).spec_enabled() == old(self).spec_enabled(),
            final(self).spec_shift_register() == old(self).spec_shift_register(),
            final(self).spec_envelope() == old(self).spec_envelope(),
    {
        self.bit_6_mode = value >= 128;
        let period = ntsc_period(value % 16);
        self.frequency_timer.set_period_and_reset_index(period);
    }

    /// Write 0x400F: `llll l...`, the length index. Restarts the envelope; loads the length only
    /// while the channel is enabled.
    pub fn set_length(&mut self, value: u8)
        ensures
            final(self).spec_envelope().spec_start(),
            final(self).spec_envelope().spec_divider() == old(self).spec_envelope().spec_divider(),
            final(self).spec_envelope().spec_decay_level() == old(self).spec_envelope().spec_decay_level(),
            final(self).spec_envelope().spec_use_constant_volume()
                == old(self).spec_envelope().spec_use_constant_volume(),
            final(self).spec_length_counter().spec_count() == (if old(self).spec_enabled() {
                spec_length_table()[(value / 8) as int]
            } else {
                old(self).spec_length_counter().spec_count()
            }),
            final(self).spec_length_counter().spec_halt() == old(self).spec_length_counter().spec_halt(),
            final(self).spec_enabled() == old(self).spec_enabled(),
            final(self).spec_frequency_timer() == old(self).spec_frequency_timer(),
            final(self).spec_shift_register() == old(self).spec_shift_register(),
            final(self).spec_bit_6_mode() == old(self).spec_bit_6_mode(),
    {
        self.envelope.start();
        if self.enabled {
            let length = value >> 3;
            assert(length == value / 8) by (bit_vector)
                requires
                    length == value >> 3,
            ;
            self.length_counter.start_reload(length);
        }
    }

    /// Write 0x4015: disabling the channel also clears its length.
    pub fn set_enabled(&mut self, enabled: bool)
        ensures
            final(self).spec_enabled() == enabled,
            final(self).spec_length_counter().spec_count() == (if enabled {
                old(self).spec_length_counter().spec_count()
            } else {
                0
            }),
            final(self).spec_length_counter().spec_halt() == old(self).spec_length_counter().spec_halt(),
            final(self).spec_envelope() == old(self).spec_envelope(),
            final(self).spec_frequency_timer() == old(self).spec_frequency_timer(),
            final(self).spec_shift_register() == old(self).spec_shift_register(),
            final(self).spec_bit_6_mode() == old(self).spec_bit_6_mode(),
    {
        self.enabled = enabled;
        if !self.enabled {
            self.length_counter.set_to_zero();
        }
    }

    /// Read 0x4015: whether the length counter is still running.
    pub fn active(&self) -> (r: bool)
        ensures
            r == (self.spec_length_counter().spec_count() != 0),
    {
        !self.length_counter.is_zero()
    }

    /// Every PUT cycle: clocks the timer, which steps the shift register when it wraps around.
    pub fn tick_put(&mut self)
        ensures
            final(self).spec_frequency_timer().spec_period() == old(self).spec_frequency_timer().spec_period(),
            final(self).spec_shift_register() == (
                if old(self).spec_frequency_timer().spec_period() != 0
                    && old(self).spec_frequency_timer().spec_index() == 0 {
                    old(self).spec_shift_register().stepped(old(self).spec_feedback_index())
                } else {
                    old(self).spec_shift_register()
                }
            ),
            final(self).spec_length_counter() == old(self).spec_length_counter(),
            final(self).spec_enabled() == old(self).spec_enabled(),
            final(self).spec_envelope() == old(self).spec_envelope(),
            final(self).spec_bit_6_mode() == old(self).spec_bit_6_mode(),
    {
        let triggered = self.frequency_timer.tick();
        if triggered {
            let feedback_index = if self.bit_6_mode { 6 } else { 1 };
            self.shift_register.step(feedback_index);
        }
    }

    /// Every quarter frame.
    pub fn tick_envelope(&mut self)
        ensures
            !final(self).spec_envelope().spec_start(),
            (final(self).spec_envelope().spec_divider(), final(self).spec_envelope().spec_decay_level())
                == old(self).spec_envelope().stepped(),
            final(self).spec_envelope().spec_use_constant_volume()
                == old(self).spec_envelope().spec_use_constant_volume(),
            final(self).spec_length_counter() == old(self).spec_length_counter(),
            final(self).spec_enabled() == old(self).spec_enabled(),
            final(self).spec_frequency_timer() == old(self).spec_frequency_timer(),
            final(self).spec_shift_register() == old(self).spec_shift_register(),
            final(self).spec_bit_6_mode() == old(self).spec_bit_6_mode(),
    {
        self.envelope.step();
    }

    /// Silent while the length is zero or bit 0 of the shift register is clear; else the
    /// envelope's volume.
    pub fn sample_volume(&self) -> (r: u8)
        ensures
            r == (if self.spec_length_counter().spec_count() == 0 || self.spec_shift_register().spec_bits() % 2 == 0 {
                0
            } else {
                self.spec_envelope().spec_volume()
            }),
            r < 16,
    {
        if self.length_counter.is_zero() || !self.shift_register.low_bit() {
            0
        } else {
            self.envelope.volume()
        }
    }
}

impl Default for NoiseChannel {
    fn default() -> (r: NoiseChannel)
        ensures
            !r.spec_enabled(),
            !r.spec_bit_6_mode(),
            r.spec_length_counter().spec_count() == 0,
            r.spec_shift_register().spec_bits() == 1,
            r.spec_frequency_timer().spec_period() == 0,
    {
        NoiseChannel::new()
    }
}

/// The 15-bit shift register of the noise channel.
pub struct LinearFeedbackShiftRegister(u16);

/// One step of a 15-bit register: shift right, and feed bit 0 XOR the bit at the feedback index
/// into bit 14.
pub open spec fn spec_lfsr_step(bits: u16, feedback_index: u8) -> u16 {
    (bits >> 1u16) | ((((bits & 1) ^ ((bits >> feedback_index as u16) & 1))) << 14u16)
}

impl LinearFeedbackShiftRegister {
    #[verifier::type_invariant]
    closed spec fn fits_in_fifteen_bits(&self) -> bool {
        self.0 < 0x8000
    }

    pub closed spec fn spec_bits(&self) -> u16 {
        self.0
    }

    pub closed spec fn stepped(&self, feedback_index: u8) -> LinearFeedbackShiftRegister {
        LinearFeedbackShiftRegister(spec_lfsr_step(self.0, feedback_index))
    }

    /// A step of the register applies the feedback step to its bits.
    pub proof fn lemma_stepped(&self, feedback_index: u8)
        ensures
            self.stepped(feedback_index).spec_bits() == spec_lfsr_step(self.spec_bits(), feedback_index),
    {
    }

    pub fn new() -> (r: LinearFeedbackShiftRegister)
        ensures
            r.spec_bits() == 1,
    {
        LinearFeedbackShiftRegister(0b000_0000_0000_0001)
    }

    pub fn step(&mut self, feedback_index: u8)
        requires
            feedback_index < 15,
        ensures
            *final(self) == old(self).stepped(feedback_index),
    {
        proof {
            use_type_invariant(&*self);
        }
        let bits = self.0;
        let feedback = self.bit(0) ^ self.bit(feedback_index);
        let feedback_bit: u16 = if feedback { 1 } else { 0 };
        let next = (bits >> 1) | (feedback_bit << 14);
        assert(next == spec_lfsr_step(bits, feedback_index) && next < 0x8000) by (bit_vector)
            requires
                bits < 0x8000,
                feedback_index < 15,
                feedback == ((bits >> 0u16) & 1 == 1) ^ ((bits >> feedback_index as u16) & 1 == 1),
                feedback_bit == (if feedback { 1u16 } else { 0u16 }),
                next == (bits >> 1) | (feedback_bit << 14),
        ;
        self.0 = next;
    }

    pub fn low_bit(&self) -> (r: bool)
        ensures
            r == (self.spec_bits() % 2 == 1),
    {
        let r = self.bit(0);
        let bits = self.0;
        assert(((bits >> 0u16) & 1 == 1) == (bits % 2 == 1)) by (bit_vector);
        r
    }

    fn bit(&self, index: u8) -> (r: bool)
        requires
            index < 15,
        ensures
            r == ((self.spec_bits() >> index as u16) & 1 == 1),
    {
        (self.0 >> index) & 1 == 1
    }
}

/// The noise shift register never gets stuck at zero: from any non-zero 15-bit state, a step
/// (with either feedback bit) gives a non-zero 15-bit state.
pub proof fn lemma_lfsr_never_reaches_zero(bits: u16, feedback_index: u8)
    requires
        0 < bits < 0x8000,
        feedback_index == 1 || feedback_index == 6,
    ensures
        0 < spec_lfsr_step(bits, feedback_index) < 0x8000,
{
    let f = feedback_index as u16;
    assert(0 < (bits >> 1u16) | ((((bits & 1) ^ ((bits >> f) & 1))) << 14u16) < 0x8000) by (bit_vector)
        requires
            0 < bits < 0x8000,
            f == 1 || f == 6,
    ;
}

/// The sixteen noise periods run from the shortest to the longest: each period index selects a
/// longer period than the one before, and every period is even.
pub proof fn lemma_noise_periods_get_longer(i: int)
    requires
        0 <= i < 16,
    ensures
        spec_ntsc_periods().len() == 16,
        i < 15 ==> spec_ntsc_periods()[i] < spec_ntsc_periods()[i + 1],
        spec_ntsc_periods()[i] % 2 == 0,
{
    let periods = spec_ntsc_periods();
    assert(periods[0] == 4);
    assert(periods[1] == 8);
    assert(periods[2] == 16);
    assert(periods[3] == 32);
    assert(periods[4] == 64);
    assert(periods[5] == 96);
    assert(periods[6] == 128);
    assert(periods[7] == 160);
    assert(periods[8] == 202);
    assert(periods[9] == 254);
    assert(periods[10] == 380);
    assert(periods[11] == 508);
    assert(periods[12] == 762);
    assert(periods[13] == 1016);
    assert(periods[14] == 2034);
    assert(periods[15] == 4068);
    if i == 0 {} else if i == 1 {} else if i == 2 {} else if i == 3 {} else if i == 4 {} else if i == 5 {} else if i == 6 {} else if i == 7 {} else if i == 8 {} else if i == 9 {} else if i == 10 {} else if i == 11 {} else if i == 12 {} else if i == 13 {} else if i == 14 {} else if i == 15 {} else {}
}

} // verus!
