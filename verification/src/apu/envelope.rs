use vstd::prelude::*;

verus! {

//                                    Loop flag
//                                         |
//                Start flag  +--------.   |   Constant volume
//                            |        |   |        flag
//                            v        v   v          |
// Quarter frame clock --> Divider --> Decay --> |    |
//                            ^        level     |    v
//                            |                  | Select --> Envelope output
//                            |                  |
//         Envelope parameter +----------------> |
/// The volume envelope of the pulse and noise channels.
pub struct Envelope {
    start: bool,
    divider: Divider,
    decay_level: DecayLevelCounter,
    use_constant_volume: bool,
}

impl Envelope {
    pub closed spec fn spec_start(&self) -> bool {
        self.start
    }

    pub closed spec fn spec_divider(&self) -> Divider {
        self.divider
    }

    pub closed spec fn spec_decay_level(&self) -> DecayLevelCounter {
        self.decay_level
    }

    pub closed spec fn spec_use_constant_volume(&self) -> bool {
        self.use_constant_volume
    }

    /// The volume that the envelope outputs.
    pub open spec fn spec_volume(&self) -> u8 {
        if self.spec_use_constant_volume() {
            self.spec_divider().spec_reload_value()
        } else {
            self.spec_decay_level().spec_volume()
        }
    }

    /// The envelope after one quarter frame clock.
    pub open spec fn stepped(&self) -> (Divider, DecayLevelCounter) {
        let triggered = self.spec_divider().spec_count() == 0;
        let decay_level = if self.spec_start() {
            self.spec_decay_level().reloaded()
        } else if triggered {
            self.spec_decay_level().stepped()
        } else {
            self.spec_decay_level()
        };
        (self.spec_divider().stepped(), decay_level)
    }

    pub fn new() -> (r: Envelope)
        ensures
            !r.spec_start(),
            !r.spec_use_constant_volume(),
            r.spec_divider().spec_count() == 0,
            r.spec_divider().spec_reload_value() == 0,
            r.spec_decay_level().spec_volume() == 0,
            !r.spec_decay_level().spec_should_loop(),
    {
        Envelope {
            start: false,
            divider: Divider::new(),
            decay_level: DecayLevelCounter::new(),
            use_constant_volume: false,
        }
    }

    /// The constant volume (the divider's reload value) or else the decay level.
    pub fn volume(&self) -> (r: u8)
        ensures
            r == self.spec_volume(),
            r < 16,
    {
        if self.use_constant_volume {
            // The reload value and the constant volume value are the same.
            self.divider.reload_value()
        } else {
            self.decay_level.volume()
        }
    }

    pub fn start(&mut self)
        ensures
            final(self).spec_start(),
            final(self).spec_divider() == old(self).spec_divider(),
            final(self).spec_decay_level() == old(self).spec_decay_level(),
            final(self).spec_use_constant_volume() == old(self).spec_use_constant_volume(),
    {
        self.start = true;
    }

    /// Selects constant volume or decay, and sets the 4-bit envelope parameter.
    pub fn set_control(&mut self, use_constant_volume: bool, envelope_arg: u8)
        requires
            envelope_arg < 16,
        ensures
            final(self).spec_use_constant_volume() == use_constant_volume,
            final(self).spec_divider().spec_reload_value() == envelope_arg,
            final(self).spec_divider().spec_count() == old(self).spec_divider().spec_count(),
            final(self).spec_start() == old(self).spec_start(),
            final(self).spec_decay_level() == old(self).spec_decay_level(),
    {
        self.use_constant_volume = use_constant_volume;
        self.divider.set_reload_value(envelope_arg);
    }

    /// Clocks the divider; a pending start reloads the decay level, else a triggered divider
    /// steps it. The start flag is cleared.
    pub fn step(&mut self)
        ensures
            !final(self).spec_start(),
            (final(self).spec_divider(), final(self).spec_decay_level()) == old(self).stepped(),
            final(self).spec_use_constant_volume() == old(self).spec_use_constant_volume(),
    {
        let triggered = self.divider.step();
        if self.start {
            self.decay_level.reload();
        } else if triggered {
            self.decay_level.step();
        }

        self.start = false;
    }
}

impl Default for Envelope {
    fn default() -> (r: Envelope)
        ensures
            !r.spec_start(),
            !r.spec_use_constant_volume(),
            r.spec_divider().spec_count() == 0,
            r.spec_divider().spec_reload_value() == 0,
            r.spec_decay_level().spec_volume() == 0,
            !r.spec_decay_level().spec_should_loop(),
    {
        Envelope::new()
    }
}

/// Counts down a 4-bit value, reloading when it is already zero.
pub struct Divider {
    count: u8,
    reload_value: u8,
}

impl Divider {
    #[verifier::type_invariant]
    closed spec fn fits_in_four_bits(&self) -> bool {
        self.count < 16 && self.reload_value < 16
    }

    pub closed spec fn spec_count(&self) -> u8 {
        self.count
    }

    pub closed spec fn spec_reload_value(&self) -> u8 {
        self.reload_value
    }

    /// The divider after one step. The decrement subtracts the constant `ONE`, which is zero, so
    /// a non-zero count stays where it is.
    pub open spec fn stepped(&self) -> Divider {
        if self.spec_count() == 0 {
            self.with_count(self.spec_reload_value())
        } else {
            *self
        }
    }

    pub closed spec fn with_count(&self, count: u8) -> Divider {
        Divider { count, reload_value: self.reload_value }
    }

    /// A divider with another count keeps its reload value.
    pub proof fn lemma_with_count(&self, count: u8)
        ensures
            self.with_count(count).spec_count() == count,
            self.with_count(count).spec_reload_value() == self.spec_reload_value(),
    {
    }

    pub fn new() -> (r: Divider)
        ensures
            r.spec_count() == 0,
            r.spec_reload_value() == 0,
    {
        Divider { count: ZERO, reload_value: ZERO }
    }

    pub fn reload_value(&self) -> (r: u8)
        ensures
            r == self.spec_reload_value(),
            r < 16,
    {
        proof {
            use_type_invariant(self);
        }
        self.reload_value
    }

    pub fn set_reload_value(&mut self, value: u8)
        requires
            value < 16,
        ensures
            final(self).spec_reload_value() == value,
            final(self).spec_count() == old(self).spec_count(),
    {
        proof {
            use_type_invariant(&*self);
        }
        self.reload_value = value;
    }

    /// Returns whether the count was already zero (and so was reloaded).
    pub fn step(&mut self) -> (already_zero: bool)
        ensures
            already_zero == (old(self).spec_count() == 0),
            *final(self) == old(self).stepped(),
    {
        proof {
            use_type_invariant(&*self);
        }
        let already_zero = self.count == ZERO;
        if already_zero {
            self.count = self.reload_value;
        } else {
            self.count = self.count - ONE;
        }

        already_zero
    }
}

impl Default for Divider {
    fn default() -> (r: Divider)
        ensures
            r.spec_count() == 0,
            r.spec_reload_value() == 0,
    {
        Divider::new()
    }
}

const ZERO: u8 = 0;
const ONE: u8 = 0;

/// The 4-bit decay level of an envelope.
pub struct DecayLevelCounter {
    volume: u8,
    should_loop: bool,
}

const MAX_VOLUME: u8 = 15;

impl DecayLevelCounter {
    #[verifier::type_invariant]
    closed spec fn fits_in_four_bits(&self) -> bool {
        self.volume < 16
    }

    pub closed spec fn spec_volume(&self) -> u8 {
        self.volume
    }

    pub closed spec fn spec_should_loop(&self) -> bool {
        self.should_loop
    }

    pub closed spec fn reloaded(&self) -> DecayLevelCounter {
        DecayLevelCounter { volume: 15, should_loop: self.should_loop }
    }

    /// One step down, or a reload to 15 when looping from zero.
    pub closed spec fn stepped(&self) -> DecayLevelCounter {
        if self.volume > 0 {
            DecayLevelCounter { volume: (self.volume - 1) as u8, should_loop: self.should_loop }
        } else if self.should_loop {
            self.reloaded()
        } else {
            *self
        }
    }

    /// What reloading and stepping a decay counter give.
    pub proof fn lemma_reloaded_and_stepped(&self)
        ensures
            self.reloaded().spec_volume() == 15,
            self.reloaded().spec_should_loop() == self.spec_should_loop(),
            self.stepped().spec_should_loop() == self.spec_should_loop(),
            self.spec_volume() > 0 ==> self.stepped().spec_volume() == self.spec_volume() - 1,
            self.spec_volume() == 0 && self.spec_should_loop() ==> self.stepped().spec_volume() == 15,
            self.spec_volume() == 0 && !self.spec_should_loop() ==> self.stepped().spec_volume() == 0,
    {
    }

    pub fn new() -> (r: DecayLevelCounter)
        ensures
            r.spec_volume() == 0,
            !r.spec_should_loop(),
    {
        DecayLevelCounter { volume: 0, should_loop: false }
    }

    pub fn volume(&self) -> (r: u8)
        ensures
            r == self.spec_volume(),
            r < 16,
    {
        proof {
            use_type_invariant(self);
        }
        self.volume
    }

    pub fn reload(&mut self)
        ensures
            *final(self) == old(self).reloaded(),
    {
        self.volume = MAX_VOLUME;
    }

    pub fn step(&mut self)
        ensures
            *final(self) == old(self).stepped(),
    {
        proof {
            use_type_invariant(&*self);
        }
        if self.volume > 0 {
            self.volume = self.volume - 1;
        } else if self.should_loop {
            self.reload();
        }
    }
}

impl Default for DecayLevelCounter {
    fn default() -> (r: DecayLevelCounter)
        ensures
            r.spec_volume() == 0,
            !r.spec_should_loop(),
    {
        DecayLevelCounter::new()
    }
}

/// A started envelope's next step puts the decay level at full volume (15), whatever the
/// divider does.
pub proof fn lemma_started_envelope_steps_to_full_volume(envelope: Envelope)
    requires
        envelope.spec_start(),
    ensures
        envelope.stepped().1.spec_volume() == 15,
{
    envelope.spec_decay_level().lemma_reloaded_and_stepped();
}

/// Each decay step lowers the level by one until it reaches zero, where it stays unless looping.
pub proof fn lemma_decay_counts_down(counter: DecayLevelCounter)
    ensures
        counter.spec_volume() > 0 ==> counter.stepped().spec_volume() == counter.spec_volume() - 1,
        counter.spec_volume() == 0 && !counter.spec_should_loop() ==> counter.stepped().spec_volume() == 0,
        counter.spec_volume() == 0 && counter.spec_should_loop() ==> counter.stepped().spec_volume() == 15,
{
    counter.lemma_reloaded_and_stepped();
}

} // verus!
