use vstd::prelude::*;

use crate::apu::frequency_timer::FrequencyTimer;

verus! {

/// How a sweep unit negates its change: the first pulse channel subtracts one more (ones'
/// complement) than the second (two's complement).
#[derive(PartialEq, Eq, Clone, Copy, Debug, Structural)]
pub enum NegateBehavior {
    OnesComplement,
    TwosComplement,
}

/// The period that a sweep unit is heading for, from the current period.
pub open spec fn spec_target_period(current: u16, shift_count: u8, negate: bool, behavior: NegateBehavior) -> int {
    let change = current as int / vstd::arithmetic::power2::pow2(shift_count as nat) as int;
    if !negate {
        current + change
    } else {
        match behavior {
            NegateBehavior::OnesComplement => current - change - 1,
            NegateBehavior::TwosComplement => current - change,
        }
    }
}

/// Periodically moves the period of a pulse channel's timer up or down.
pub struct Sweep {
    negate_behavior: NegateBehavior,
    enabled: bool,
    divider_period: u8,
    negate: bool,
    shift_count: u8,
    reload: bool,
    divider: u8,
    frequency_timer: FrequencyTimer,
}

impl Sweep {
    #[verifier::type_invariant]
    closed spec fn three_bit_fields(&self) -> bool {
        &&& self.divider_period < 8
        &&& self.shift_count < 8
        &&& self.divider < 8
        &&& self.frequency_timer.spec_period() <= 0x7FF
    }

    pub closed spec fn spec_negate_behavior(&self) -> NegateBehavior {
        self.negate_behavior
    }

    pub closed spec fn spec_enabled(&self) -> bool {
        self.enabled
    }

    pub closed spec fn spec_divider_period(&self) -> u8 {
        self.divider_period
    }

    pub closed spec fn spec_negate(&self) -> bool {
        self.negate
    }

    pub closed spec fn spec_shift_count(&self) -> u8 {
        self.shift_count
    }

    pub closed spec fn spec_reload(&self) -> bool {
        self.reload
    }

    pub closed spec fn spec_divider(&self) -> u8 {
        self.divider
    }

    pub closed spec fn spec_frequency_timer(&self) -> FrequencyTimer {
        self.frequency_timer
    }

    pub open spec fn spec_target(&self) -> int {
        spec_target_period(
            self.spec_frequency_timer().spec_period(),
            self.spec_shift_count(),
            self.spec_negate(),
            self.spec_negate_behavior(),
        )
    }

    /// The channel is muted while its period is below 8 or the target period is above 0x7FF.
    pub open spec fn spec_muting(&self) -> bool {
        self.spec_frequency_timer().spec_period() < 8 || self.spec_target() > 0x7FF
    }

    pub fn new(negate_behavior: NegateBehavior) -> (r: Sweep)
        ensures
            r.spec_negate_behavior() == negate_behavior,
            !r.spec_enabled(),
            r.spec_divider_period() == 0,
            !r.spec_negate(),
            r.spec_shift_count() == 0,
            !r.spec_reload(),
            r.spec_divider() == 0,
            r.spec_frequency_timer().spec_period() == 0,
            r.spec_frequency_timer().spec_index() == 0,
    {
        Sweep {
            negate_behavior,
            enabled: false,
            divider_period: 0,
            negate: false,
            shift_count: 0,
            reload: false,
            divider: 0,
            frequency_timer: FrequencyTimer::new(),
        }
    }

    /// Sets up the sweep (register 0x4001 or 0x4005) and flags the divider for reload.
    pub fn set(&mut self, enabled: bool, divider_period: u8, negate: bool, shift_count: u8)
        requires
            divider_period < 8,
            shift_count < 8,
        ensures
            final(self).spec_enabled() == enabled,
            final(self).spec_divider_period() == divider_period,
            final(self).spec_negate() == negate,
            final(self).spec_shift_count() == shift_count,
            final(self).spec_reload(),
            final(self).spec_divider() == old(self).spec_divider(),
            final(self).spec_negate_behavior() == old(self).spec_negate_behavior(),
            final(self).spec_frequency_timer() == old(self).spec_frequency_timer(),
    {
        proof {
            use_type_invariant(&*self);
        }
        self.enabled = enabled;
        self.divider_period = divider_period;
        self.negate = negate;
        self.shift_count = shift_count;
        self.reload = true;
    }

    /// Replaces the low byte of the current period.
    pub fn set_current_period_low(&mut self, value: u8)
        ensures
            final(self).spec_frequency_timer().spec_period()
                == 256 * ((old(self).spec_frequency_timer().spec_period() / 256) % 8) + value,
            final(self).spec_frequency_timer().spec_index() == old(self).spec_frequency_timer().spec_index(),
            final(self).spec_enabled() == old(self).spec_enabled(),
            final(self).spec_divider_period() == old(self).spec_divider_period(),
            final(self).spec_negate() == old(self).spec_negate(),
            final(self).spec_shift_count() == old(self).spec_shift_count(),
            final(self).spec_reload() == old(self).spec_reload(),
            final(self).spec_divider() == old(self).spec_divider(),
            final(self).spec_negate_behavior() == old(self).spec_negate_behavior(),
    {
        proof {
            use_type_invariant(&*self);
        }
        self.frequency_timer.set_period_low(value);
    }

    /// Replaces the top three bits of the current period and restarts the timer from it.
    pub fn set_current_period_high_and_reset_index(&mut self, value: u8)
        requires
            value < 8,
        ensures
            final(self).spec_frequency_timer().spec_period()
                == old(self).spec_frequency_timer().spec_period() % 256 + 256 * value,
            final(self).spec_frequency_timer().spec_index() == final(self).spec_frequency_timer().spec_period(),
            final(self).spec_enabled() == old(self).spec_enabled(),
            final(self).spec_divider_period() == old(self).spec_divider_period(),
            final(self).spec_negate() == old(self).spec_negate(),
            final(self).spec_shift_count() == old(self).spec_shift_count(),
            final(self).spec_reload() == old(self).spec_reload(),
            final(self).spec_divider() == old(self).spec_divider(),
            final(self).spec_negate_behavior() == old(self).spec_negate_behavior(),
    {
        proof {
            use_type_invariant(&*self);
        }
        self.frequency_timer.set_period_high(value);
        let period = self.frequency_timer.period();
        self.frequency_timer.set_period_and_reset_index(period);
    }

    /// Clocks the channel's timer; true when it wraps around.
    pub fn tick_frequency_timer(&mut self) -> (wrapped_around: bool)
        ensures
            wrapped_around == (old(self).spec_frequency_timer().spec_period() != 0
                && old(self).spec_frequency_timer().spec_index() == 0),
            final(self).spec_frequency_timer().spec_period() == old(self).spec_frequency_timer().spec_period(),
            final(self).spec_enabled() == old(self).spec_enabled(),
            final(self).spec_divider_period() == old(self).spec_divider_period(),
            final(self).spec_negate() == old(self).spec_negate(),
            final(self).spec_shift_count() == old(self).spec_shift_count(),
            final(self).spec_reload() == old(self).spec_reload(),
            final(self).spec_divider() == old(self).spec_divider(),
            final(self).spec_negate_behavior() == old(self).spec_negate_behavior(),
    {
        proof {
            use_type_invariant(&*self);
        }
        self.frequency_timer.tick()
    }

    /// The amount by which the sweep moves the period: the period shifted right by the shift count.
    fn change(&self) -> (r: u16)
        ensures
            r == self.spec_frequency_timer().spec_period() as int
                / vstd::arithmetic::power2::pow2(self.spec_shift_count() as nat) as int,
            r <= self.spec_frequency_timer().spec_period(),
            self.spec_shift_count() > 0 ==> 2 * r <= self.spec_frequency_timer().spec_period(),
    {
        proof {
            use_type_invariant(self);
        }
        let current = self.frequency_timer.period();
        let shift: u16 = self.shift_count as u16;
        let change = current >> shift;
        assert(shift > 0 ==> 2 * change <= current) by (bit_vector)
            requires
                change == current >> shift,
                shift < 8,
        ;
        proof {
            vstd::bits::lemma_u16_shr_is_div(current, shift);
            vstd::arithmetic::power2::lemma_pow2_pos(shift as nat);
            vstd::arithmetic::div_mod::lemma_div_is_ordered_by_denominator(
                current as int,
                1,
                vstd::arithmetic::power2::pow2(shift as nat) as int,
            );
        }
        change
    }

    /// The period that the sweep is heading for (zero where the ones' complement negation of a
    /// zero period would go below it).
    pub fn target_period(&self) -> (r: u16)
        ensures
            r == (if self.spec_target() < 0 { 0 } else { self.spec_target() }),
            self.spec_shift_count() > 0 && self.spec_frequency_timer().spec_period() >= 8 ==> self.spec_target() >= 0,
    {
        proof {
            use_type_invariant(self);
        }
        let current = self.frequency_timer.period();
        let change = self.change();
        if !self.negate {
            current + change
        } else {
            match self.negate_behavior {
                NegateBehavior::OnesComplement => if current - change >= 1 {
                    current - change - 1
                } else {
                    0
                },
                NegateBehavior::TwosComplement => current - change,
            }
        }
    }

    pub fn muting(&self) -> (r: bool)
        ensures
            r == self.spec_muting(),
    {
        proof {
            use_type_invariant(self);
        }
        self.frequency_timer.period() < 8 || self.target_period() > 0x7FF
    }

    /// Every half frame: when the divider is at zero, an enabled sweep with a non-zero shift that
    /// isn't muting moves the period to the target. Then the divider reloads (at zero, or when
    /// flagged) or counts down.
    pub fn tick(&mut self)
        ensures
            final(self).spec_frequency_timer().spec_period() == (
                if old(self).spec_divider() == 0 && old(self).spec_enabled()
                    && old(self).spec_shift_count() > 0 && !old(self).spec_muting() {
                    old(self).spec_target()
                } else {
                    old(self).spec_frequency_timer().spec_period() as int
                }
            ),
            final(self).spec_frequency_timer().spec_index() == old(self).spec_frequency_timer().spec_index(),
            final(self).spec_divider() == (if old(self).spec_divider() == 0 || old(self).spec_reload() {
                old(self).spec_divider_period() as int
            } else {
                old(self).spec_divider() - 1
            }),
            !final(self).spec_reload(),
            final(self).spec_enabled() == old(self).spec_enabled(),
            final(self).spec_divider_period() == old(self).spec_divider_period(),
            final(self).spec_negate() == old(self).spec_negate(),
            final(self).spec_shift_count() == old(self).spec_shift_count(),
            final(self).spec_negate_behavior() == old(self).spec_negate_behavior(),
    {
        proof {
            use_type_invariant(&*self);
        }
        if self.divider == 0 && self.enabled && self.shift_count > 0 && !self.muting() {
            let target = self.target_period();
            self.frequency_timer.set_period(target);
        }

        if self.divider == 0 || self.reload {
            self.divider = self.divider_period;
            self.reload = false;
        } else {
            self.divider = self.divider - 1;
        }
    }
}

} // verus!
