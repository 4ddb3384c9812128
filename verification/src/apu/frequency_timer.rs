use vstd::prelude::*;

verus! {

/// Counts down from its period, signalling each time it wraps around.
pub struct FrequencyTimer {
    period: u16,
    index: u16,
}

impl FrequencyTimer {
    pub closed spec fn spec_period(&self) -> u16 {
        self.period
    }

    pub closed spec fn spec_index(&self) -> u16 {
        self.index
    }

    pub fn new() -> (r: FrequencyTimer)
        ensures
            r.spec_period() == 0,
            r.spec_index() == 0,
    {
        FrequencyTimer { period: 0, index: 0 }
    }

    pub fn period(&self) -> (r: u16)
        ensures
            r == self.spec_period(),
    {
        self.period
    }

    pub fn set_period_and_reset_index(&mut self, period: u16)
        ensures
            final(self).spec_period() == period,
            final(self).spec_index() == period,
        no_unwind
    {
        self.period = period;
        self.index = self.period;
    }

    /// Replaces bits 8 through 10 of the period, keeping the low byte.
    pub fn set_period_high(&mut self, period_high: u8)
        requires
            period_high < 8,
        ensures
            final(self).spec_period() == old(self).spec_period() % 256 + 256 * period_high,
            final(self).spec_index() == old(self).spec_index(),
        no_unwind
    {
        let old_period = self.period;
        let new_period = (old_period & 0b0000_0000_1111_1111) | ((period_high as u16) << 8);
        assert(new_period == old_period % 256 + 256 * period_high) by (bit_vector)
            requires
                period_high < 8,
                new_period == (old_period & 0b0000_0000_1111_1111) | ((period_high as u16) << 8),
        ;
        self.period = new_period;
    }

    /// Replaces the low byte of the period, keeping bits 8 through 10 and dropping any higher bits.
    pub fn set_period_low(&mut self, period_low: u8)
        ensures
            final(self).spec_period() == 256 * ((old(self).spec_period() / 256) % 8) + period_low,
            final(self).spec_index() == old(self).spec_index(),
        no_unwind
    {
        let old_period = self.period;
        let new_period = (old_period & 0b0000_0111_0000_0000) | (period_low as u16);
        assert(new_period == 256 * ((old_period / 256) % 8) + period_low) by (bit_vector)
            requires
                new_period == (old_period & 0b0000_0111_0000_0000) | (period_low as u16),
        ;
        self.period = new_period;
    }

    /// Only the sweep unit of the pulse channel sets the period without resetting the index.
    pub fn set_period(&mut self, period: u16)
        ensures
            final(self).spec_period() == period,
            final(self).spec_index() == old(self).spec_index(),
        no_unwind
    {
        self.period = period;
    }

    /// Counts down once. Returns true when the count wraps around (from zero back to the period).
    /// A period of zero holds the index at zero and never wraps.
    pub fn tick(&mut self) -> (wrapped_around: bool)
        ensures
            final(self).spec_period() == old(self).spec_period(),
            wrapped_around == spec_tick_wraps(old(self).spec_period(), old(self).spec_index()),
            final(self).spec_index() == spec_tick_index(old(self).spec_period(), old(self).spec_index()),
        no_unwind
    {
        let mut wrapped_around = false;
        if self.period == 0 {
            self.index = 0;
        } else if self.index == 0 {
            self.index = self.period;
            wrapped_around = true;
        } else {
            self.index = self.index - 1;
        }
        wrapped_around
    }
}

impl Default for FrequencyTimer {
    fn default() -> (r: FrequencyTimer)
        ensures
            r.spec_period() == 0,
            r.spec_index() == 0,
    {
        FrequencyTimer::new()
    }
}

/// Whether a tick wraps around: the period is not zero and the index has reached zero.
pub open spec fn spec_tick_wraps(period: u16, index: u16) -> bool {
    period != 0 && index == 0
}

/// The index after a tick: held at zero for a zero period, back to the period after zero,
/// otherwise one less.
pub open spec fn spec_tick_index(period: u16, index: u16) -> u16 {
    if period == 0 {
        0
    } else if index == 0 {
        period
    } else {
        (index - 1) as u16
    }
}

/// The index after `n` ticks.
pub open spec fn spec_index_after_ticks(period: u16, index: u16, n: nat) -> u16
    decreases n,
{
    if n == 0 {
        index
    } else {
        spec_tick_index(period, spec_index_after_ticks(period, index, (n - 1) as nat))
    }
}

/// After the period is set and the index reset to it, the next `period` ticks don't wrap and
/// the one after them does.
pub proof fn lemma_reset_timer_wraps_after_period_ticks(period: u16)
    requires
        period > 0,
    ensures
        forall|k: nat| k < period ==> !spec_tick_wraps(period, #[trigger] spec_index_after_ticks(period, period, k)),
        spec_tick_wraps(period, spec_index_after_ticks(period, period, period as nat)),
{
    assert forall|k: nat| k <= period implies #[trigger] spec_index_after_ticks(period, period, k) == period - k by {
        lemma_index_counts_down(period, k);
    }
    assert(spec_index_after_ticks(period, period, period as nat) == 0);
}

proof fn lemma_index_counts_down(period: u16, k: nat)
    requires
        period > 0,
        k <= period,
    ensures
        spec_index_after_ticks(period, period, k) == period - k,
    decreases k,
{
    if k > 0 {
        lemma_index_counts_down(period, (k - 1) as nat);
    }
}

/// Setting the high bits then the low byte of a timer's period gives the eleven bit period they form.
pub proof fn lemma_period_from_high_and_low(old_period: u16, high: u8, low: u8)
    requires
        high < 8,
    ensures
        256 * (((old_period % 256 + 256 * high) / 256) % 8) + low == 256 * high + low,
{
    assert(((old_period % 256 + 256 * high) / 256) == high as int) by (nonlinear_arith)
        requires
            high < 8,
            0 <= old_period % 256 < 256,
    ;
}

} // verus!
