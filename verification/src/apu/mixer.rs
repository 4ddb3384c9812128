use vstd::prelude::*;

verus! {

/// Which channels are forcibly silenced when the channels are mixed.
pub struct Mixer {
    pub pulse_1_force_muted: bool,
    pub pulse_2_force_muted: bool,
    pub triangle_force_muted: bool,
    pub noise_force_muted: bool,
    pub dmc_force_muted: bool,
}

impl Mixer {
    pub const SAMPLE_RATE: u32 = 44100;

    /// No channel is muted.
    pub fn new() -> (r: Mixer)
        ensures
            !r.pulse_1_force_muted,
            !r.pulse_2_force_muted,
            !r.triangle_force_muted,
            !r.noise_force_muted,
            !r.dmc_force_muted,
    {
        Mixer {
            pulse_1_force_muted: false,
            pulse_2_force_muted: false,
            triangle_force_muted: false,
            noise_force_muted: false,
            dmc_force_muted: false,
        }
    }

    /// Silences every channel.
    pub fn mute(&mut self)
        ensures
            final(self).pulse_1_force_muted,
            final(self).pulse_2_force_muted,
            final(self).triangle_force_muted,
            final(self).noise_force_muted,
            final(self).dmc_force_muted,
    {
        self.pulse_1_force_muted = true;
        self.pulse_2_force_muted = true;
        self.triangle_force_muted = true;
        self.noise_force_muted = true;
        self.dmc_force_muted = true;
    }

    /// The volumes that go into the mix: each channel's own, or zero where it is forcibly muted.
    pub fn audible_volumes(&self, volumes: ChannelVolumes) -> (r: ChannelVolumes)
        ensures
            r.pulse_1 == (if self.pulse_1_force_muted { 0 } else { volumes.pulse_1 }),
            r.pulse_2 == (if self.pulse_2_force_muted { 0 } else { volumes.pulse_2 }),
            r.triangle == (if self.triangle_force_muted { 0 } else { volumes.triangle }),
            r.noise == (if self.noise_force_muted { 0 } else { volumes.noise }),
            r.dmc == (if self.dmc_force_muted { 0 } else { volumes.dmc }),
    {
        ChannelVolumes {
            pulse_1: if self.pulse_1_force_muted { 0 } else { volumes.pulse_1 },
            pulse_2: if self.pulse_2_force_muted { 0 } else { volumes.pulse_2 },
            triangle: if self.triangle_force_muted { 0 } else { volumes.triangle },
            noise: if self.noise_force_muted { 0 } else { volumes.noise },
            dmc: if self.dmc_force_muted { 0 } else { volumes.dmc },
        }
    }
}

/// The sample volumes of the five channels.
#[derive(PartialEq, Eq, Clone, Copy, Debug, Structural)]
pub struct ChannelVolumes {
    pub pulse_1: u8,
    pub pulse_2: u8,
    pub triangle: u8,
    pub noise: u8,
    pub dmc: u8,
}

} // verus!
