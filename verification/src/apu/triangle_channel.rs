use vstd::prelude::*;

use crate::apu::frequency_timer::FrequencyTimer;
use crate::apu::length_counter::{spec_length_table, LengthCounter};

verus! {

/// The 32-step volume sequence of the triangle wave: 15 down to 0, then 0 up to 15.
pub open spec fn spec_volume_sequence(index: int) -> u8 {
    if index < 16 {
        (15 - index) as u8
    } else {
        (index - 16) as u8
    }
}

/// The triangle channel: a 32-step triangle wave, gated by the length counter and the linear
/// counter.
pub struct TriangleChannel {
    enabled: bool,

    counter_control: bool,
    linear_counter_reload_value: u8,
    linear_counter: u8,
    frequency_timer: FrequencyTimer,
    length_counter: LengthCounter,

    linear_counter_reload: bool,

    sequence_index: usize,
}

impl TriangleChannel {
    #[verifier::type_invariant]
    closed spec fn well_formed(&self) -> bool {
        &&& self.linear_counter_reload_value < 128
        &&& self.linear_counter < 128
        &&& self.sequence_index < 32
    }

    pub closed spec fn spec_enabled(&self) -> bool {
        self.enabled
    }

    pub closed spec fn spec_counter_control(&self) -> bool {
        self.counter_control
    }

    pub closed spec fn spec_linear_counter_reload_value(&self) -> u8 {
        self.linear_counter_reload_value
    }

    pub closed spec fn spec_linear_counter(&self) -> u8 {
        self.linear_counter
    }

    pub closed spec fn spec_frequency_timer(&self) -> FrequencyTimer {
        self.frequency_timer
    }

    pub closed spec fn spec_length_counter(&self) -> LengthCounter {
        self.length_counter
    }

    pub closed spec fn spec_linear_counter_reload(&self) -> bool {
        self.linear_counter_reload
    }

    pub closed spec fn spec_sequence_index(&self) -> usize {
        self.sequence_index
    }

    pub fn new() -> (r: TriangleChannel)
        ensures
            !r.spec_enabled(),
            !r.spec_counter_control(),
            r.spec_linear_counter_reload_value() == 0,
            r.spec_linear_counter() == 0,
            !r.spec_linear_counter_reload(),
            r.spec_sequence_index() == 0,
            r.spec_length_counter().spec_count() == 0,
            !r.spec_length_counter().spec_halt(),
            r.spec_frequency_timer().spec_period() == 0,
            r.spec_frequency_timer().spec_index() == 0,
    {
        TriangleChannel {
            enabled: false,
            counter_control: false,
            linear_counter_reload_value: 0,
            linear_counter: 0,
            frequency_timer: FrequencyTimer::new(),
            length_counter: LengthCounter::new(),
            linear_counter_reload: false,
            sequence_index: 0,
        }
    }

    /// Write 0x4008: `clll llll`, the control flag (which also halts the length counter) and the
    /// linear counter's 7-bit reload value.
    pub fn set_control_and_linear(&mut self, value: u8)
        ensures
            final(self).spec_counter_control() == (value >= 128),
            final(self).spec_linear_counter_reload_value() == value % 128,
            final(self).spec_length_counter().spec_halt() == (value >= 128),
            final(self).spec_length_counter().spec_count() == old(self).spec_length_counter().spec_count(),
            final(self).spec_enabled() == old(self).spec_enabled(),
            final(self).spec_linear_counter() == old(self).spec_linear_counter(),
            final(self).spec_frequency_timer() == old(self).spec_frequency_timer(),
            final(self).spec_linear_counter_reload() == old(self).spec_linear_counter_reload(),
            final(self).spec_sequence_index() == old(self).spec_sequence_index(),
    {
        proof {
            use_type_invariant(&*self);
        }
        self.counter_control = value >= 128;
        self.linear_counter_reload_value = value % 128;
        self.length_counter.start_halt(self.counter_control);
    }

    /// Write 0x400A: the low byte of the timer period.
    pub fn set_timer_low(&mut self, value: u8)
        ensures
            final(self).spec_frequency_timer().spec_period()
                == 256 * ((old(self).spec_frequency_timer().spec_period() / 256) % 8) + value,
            final(self).spec_frequency_timer().spec_index() == old(self).spec_frequency_timer().spec_index(),
            final(self).spec_enabled() == old(self).spec_enabled(),
            final(self).spec_counter_control() == old(self).spec_counter_control(),
            final(self).spec_linear_counter_reload_value() == old(self).spec_linear_counter_reload_value(),
            final(self).spec_linear_counter() == old(self).spec_linear_counter(),
            final(self).spec_length_counter() == old(self).spec_length_counter(),
            final(self).spec_linear_counter_reload() == old(self).spec_linear_counter_reload(),
            final(self).spec_sequence_index() == old(self).spec_sequence_index(),
    {
        proof {
            use_type_invariant(&*self);
        }
        self.frequency_timer.set_period_low(value);
    }

    /// Write 0x400B: `llll lppp`, the length index (loaded only while enabled) and the top three
    /// bits of the timer period. Sets the linear counter reload flag.
    pub fn set_length_and_timer_high(&mut self, value: u8)
        ensures
            final(self).spec_length_counter().spec_count() == (if old(self).spec_enabled() {
                spec_length_table()[(value / 8) as int]
            } else {
                old(self).spec_length_counter().spec_count()
            }),
            final(self).spec_length_counter().spec_halt() == old(self).spec_length_counter().spec_halt(),
            final(self).spec_frequency_timer().spec_period()
                == old(self).spec_frequency_timer().spec_period() % 256 + 256 * (value % 8),
            final(self).spec_frequency_timer().spec_index() == old(self).spec_frequency_timer().spec_index(),
            final(self).spec_linear_counter_reload(),
            final(self).spec_enabled() == old(self).spec_enabled(),
            final(self).spec_counter_control() == old(self).spec_counter_control(),
            final(self).spec_linear_counter_reload_value() == old(self).spec_linear_counter_reload_value(),
            final(self).spec_linear_counter() == old(self).spec_linear_counter(),
            final(self).spec_sequence_index() == old(self).spec_sequence_index(),
    {
        proof {
            use_type_invariant(&*self);
        }
        let length = value / 8;
        let period = value % 8;
        if self.enabled {
            self.length_counter.start_reload(length);
        }

        self.frequency_timer.set_period_high(period);
        self.linear_counter_reload = true;
    }

    /// Read 0x4015: whether the length counter is still running.
    pub fn active(&self) -> (r: bool)
        ensures
            r == (self.spec_length_counter().spec_count() != 0),
    {
        !self.length_counter.is_zero()
    }

    /// Write 0x4015: disabling the channel also clears its length.
    pub fn set_enabled(&mut self, enabled: bool)
        ensures
            final(self).spec_enabled() == enabled,
            final(self).spec_length_counter().spec_count() == (if enabled {
                old(self).spec_length_counter().spec_count()
            } else {
                0
            }),
            final(self).spec_length_counter().spec_halt() == old(self).spec_length_counter().spec_halt(),
            final(self).spec_counter_control() == old(self).spec_counter_control(),
            final(self).spec_linear_counter_reload_value() == old(self).spec_linear_counter_reload_value(),
            final(self).spec_linear_counter() == old(self).spec_linear_counter(),
            final(self).spec_frequency_timer() == old(self).spec_frequency_timer(),
            final(self).spec_linear_counter_reload() == old(self).spec_linear_counter_reload(),
            final(self).spec_sequence_index() == old(self).spec_sequence_index(),
    {
        proof {
            use_type_invariant(&*self);
        }
        self.enabled = enabled;
        if !self.enabled {
            self.length_counter.set_to_zero();
        }
    }

    /// Every CPU cycle: clocks the timer; when it wraps around while both counters are non-zero,
    /// the sequence advances (modulo 32).
    pub fn tick(&mut self)
        ensures
            final(self).spec_frequency_timer().spec_period() == old(self).spec_frequency_timer().spec_period(),
            final(self).spec_sequence_index() == (
                if old(self).spec_frequency_timer().spec_period() != 0
                    && old(self).spec_frequency_timer().spec_index() == 0
                    && old(self).spec_length_counter().spec_count() != 0
                    && old(self).spec_linear_counter() > 0 {
                    (old(self).spec_sequence_index() + 1) % 32
                } else {
                    old(self).spec_sequence_index() as int
                }
            ),
            final(self).spec_enabled() == old(self).spec_enabled(),
            final(self).spec_counter_control() == old(self).spec_counter_control(),
            final(self).spec_linear_counter_reload_value() == old(self).spec_linear_counter_reload_value(),
            final(self).spec_linear_counter() == old(self).spec_linear_counter(),
            final(self).spec_length_counter() == old(self).spec_length_counter(),
            final(self).spec_linear_counter_reload() == old(self).spec_linear_counter_reload(),
    {
        proof {
            use_type_invariant(&*self);
        }
        let triggered = self.frequency_timer.tick();
        if triggered && !self.length_counter.is_zero() && self.linear_counter > 0 {
            self.sequence_index = (self.sequence_index + 1) % 32;
        }
    }

    /// Every quarter frame: reloads the linear counter if flagged, else counts it down to zero.
    /// The reload flag is cleared unless the control flag is set.
    pub fn decrement_linear_counter(&mut self)
        ensures
            final(self).spec_linear_counter() == (if old(self).spec_linear_counter_reload() {
                old(self).spec_linear_counter_reload_value() as int
            } else if old(self).spec_linear_counter() > 0 {
                old(self).spec_linear_counter() - 1
            } else {
                0
            }),
            final(self).spec_linear_counter_reload() == (old(self).spec_linear_counter_reload()
                && old(self).spec_counter_control()),
            final(self).spec_enabled() == old(self).spec_enabled(),
            final(self).spec_counter_control() == old(self).spec_counter_control(),
            final(self).spec_linear_counter_reload_value() == old(self).spec_linear_counter_reload_value(),
            final(self).spec_frequency_timer() == old(self).spec_frequency_timer(),
            final(self).spec_length_counter() == old(self).spec_length_counter(),
            final(self).spec_sequence_index() == old(self).spec_sequence_index(),
    {
        proof {
            use_type_invariant(&*self);
        }
        if self.linear_counter_reload {
            self.linear_counter = self.linear_counter_reload_value;
        } else if self.linear_counter > 0 {
            self.linear_counter = self.linear_counter - 1;
        }

        if !self.counter_control {
            self.linear_counter_reload = false;
        }
    }

    /// The step of the triangle wave while both counters are non-zero; else silence.
    pub fn sample_volume(&self) -> (r: u8)
        ensures
            r == (if self.spec_length_counter().spec_count() != 0 && self.spec_linear_counter() > 0 {
                spec_volume_sequence(self.spec_sequence_index() as int)
            } else {
                0
            }),
            r < 16,
    {
        proof {
            use_type_invariant(self);
        }
        if !self.length_counter.is_zero() && self.linear_counter > 0 {
            let index = self.sequence_index as u8;
            if index < 16 {
                15 - index
            } else {
                index - 16
            }
        } else {
            0
        }
    }
}

impl Default for TriangleChannel {
    fn default() -> (r: TriangleChannel)
        ensures
            !r.spec_enabled(),
            !r.spec_counter_control(),
            r.spec_linear_counter_reload_value() == 0,
            r.spec_linear_counter() == 0,
            !r.spec_linear_counter_reload(),
            r.spec_sequence_index() == 0,
            r.spec_length_counter().spec_count() == 0,
            r.spec_frequency_timer().spec_period() == 0,
    {
        TriangleChannel::new()
    }
}

} // verus!
