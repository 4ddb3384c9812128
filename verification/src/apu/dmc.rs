use vstd::prelude::*;

verus! {

/// The NTSC rates that the 4-bit rate index of register 0x4010 selects, in CPU cycles.
pub open spec fn spec_dmc_ntsc_periods() -> Seq<u16> {
    seq![428, 380, 340, 320, 286, 254, 226, 214, 190, 160, 142, 128, 106, 84, 72, 54]
}

fn dmc_ntsc_period(index: u8) -> (r: u16)
    requires
        index < 16,
    ensures
        r == spec_dmc_ntsc_periods()[index as int],
{
    match index {
        0 => 428, 1 => 380, 2 => 340, 3 => 320, 4 => 286, 5 => 254, 6 => 226, 7 => 214,
        8 => 190, 9 => 160, 10 => 142, 11 => 128, 12 => 106, 13 => 84, 14 => 72, _ => 54,
    }
}

/// The delta modulation channel: plays 1-bit deltas of samples that DMA fetches from memory.
pub struct Dmc {
    irq_enabled: bool,

    should_loop: bool,

    period: u16,
    cycles_remaining: u16,

    sample_start_address: u16,
    sample_address: u16,
    sample_buffer: Option<u8>,

    output_unit: OutputUnit,
}

/// The output unit of the DMC: shifts the bits of a sample into its 7-bit output level.
pub struct OutputUnit {
    // Values from 0 to 8.
    bits_remaining: u8,
    sample_shifter: u8,
    volume: u8,
    silenced: bool,
}

impl OutputUnit {
    pub closed spec fn spec_bits_remaining(&self) -> u8 {
        self.bits_remaining
    }

    pub closed spec fn spec_sample_shifter(&self) -> u8 {
        self.sample_shifter
    }

    pub closed spec fn spec_volume(&self) -> u8 {
        self.volume
    }

    pub closed spec fn spec_silenced(&self) -> bool {
        self.silenced
    }

    pub fn new() -> (r: OutputUnit)
        ensures
            r.spec_silenced(),
            r.spec_volume() == 0,
            r.spec_sample_shifter() == 0,
            r.spec_bits_remaining() == 8,
    {
        OutputUnit { silenced: true, volume: 0, sample_shifter: 0, bits_remaining: 8 }
    }
}

impl Default for OutputUnit {
    fn default() -> (r: OutputUnit)
        ensures
            r.spec_silenced(),
            r.spec_volume() == 0,
            r.spec_sample_shifter() == 0,
            r.spec_bits_remaining() == 8,
    {
        OutputUnit::new()
    }
}

/// The output level after one output clock: bit 0 of the shifter moves it up by two (if it is
/// below 126) or down by two (if it is above 1).
pub open spec fn spec_next_volume(volume: u8, sample_shifter: u8) -> u8 {
    if sample_shifter % 2 == 1 {
        if volume < 126 { (volume + 2) as u8 } else { volume }
    } else {
        if volume > 1 { (volume - 2) as u8 } else { volume }
    }
}

impl Dmc {
    #[verifier::type_invariant]
    closed spec fn well_formed(&self) -> bool {
        &&& self.output_unit.volume < 128
        &&& self.output_unit.bits_remaining <= 8
        &&& self.sample_start_address >= 0xC000
        &&& self.sample_address >= 0x8000
    }

    pub closed spec fn spec_irq_enabled(&self) -> bool {
        self.irq_enabled
    }

    pub closed spec fn spec_should_loop(&self) -> bool {
        self.should_loop
    }

    pub closed spec fn spec_period(&self) -> u16 {
        self.period
    }

    pub closed spec fn spec_cycles_remaining(&self) -> u16 {
        self.cycles_remaining
    }

    pub closed spec fn spec_sample_start_address(&self) -> u16 {
        self.sample_start_address
    }

    pub closed spec fn spec_sample_address(&self) -> u16 {
        self.sample_address
    }

    pub closed spec fn spec_sample_buffer(&self) -> Option<u8> {
        self.sample_buffer
    }

    pub closed spec fn spec_output_unit(&self) -> OutputUnit {
        self.output_unit
    }

    pub fn new() -> (r: Dmc)
        ensures
            !r.spec_irq_enabled(),
            !r.spec_should_loop(),
            r.spec_period() == 427,
            r.spec_cycles_remaining() == 427,
            r.spec_sample_start_address() == 0xC000,
            r.spec_sample_address() == 0xC000,
            r.spec_sample_buffer() is None,
            r.spec_output_unit().spec_silenced(),
            r.spec_output_unit().spec_volume() == 0,
            r.spec_output_unit().spec_sample_shifter() == 0,
            r.spec_output_unit().spec_bits_remaining() == 8,
    {
        Dmc {
            irq_enabled: false,
            should_loop: false,
            period: dmc_ntsc_period(0) - 1,
            cycles_remaining: dmc_ntsc_period(0) - 1,
            sample_start_address: 0xC000,
            sample_address: 0xC000,
            sample_buffer: None,
            output_unit: OutputUnit::new(),
        }
    }

    /// Write 0x4010: `il.. pppp`, the IRQ enable flag, the loop flag and the rate index (the
    /// period is one less than the rate). Returns whether a pending DMC interrupt is to be
    /// acknowledged, which happens when the IRQ is disabled.
    pub fn write_control_byte(&mut self, value: u8) -> (acknowledge_irq: bool)
        ensures
            final(self).spec_irq_enabled() == (value >= 128),
            final(self).spec_should_loop() == (value & 0x40 != 0),
            final(self).spec_period() == spec_dmc_ntsc_periods()[(value % 16) as int] - 1,
            acknowledge_irq == !final(self).spec_irq_enabled(),
            final(self).spec_cycles_remaining() == old(self).spec_cycles_remaining(),
            final(self).spec_sample_start_address() == old(self).spec_sample_start_address(),
            final(self).spec_sample_address() == old(self).spec_sample_address(),
            final(self).spec_sample_buffer() == old(self).spec_sample_buffer(),
            final(self).spec_output_unit() == old(self).spec_output_unit(),
    {
        proof {
            use_type_invariant(&*self);
        }
        self.irq_enabled = value >= 128;
        self.should_loop = value & 0x40 != 0;
        self.period = dmc_ntsc_period(value % 16) - 1;
        !self.irq_enabled
    }

    /// Write 0x4011: `.vvv vvvv`, loads the 7-bit output level directly.
    pub fn write_volume(&mut self, value: u8)
        ensures
            final(self).spec_output_unit().spec_volume() == value % 128,
            final(self).spec_output_unit().spec_silenced() == old(self).spec_output_unit().spec_silenced(),
            final(self).spec_output_unit().spec_sample_shifter() == old(self).spec_output_unit().spec_sample_shifter(),
            final(self).spec_output_unit().spec_bits_remaining() == old(self).spec_output_unit().spec_bits_remaining(),
            final(self).spec_irq_enabled() == old(self).spec_irq_enabled(),
            final(self).spec_should_loop() == old(self).spec_should_loop(),
            final(self).spec_period() == old(self).spec_period(),
            final(self).spec_cycles_remaining() == old(self).spec_cycles_remaining(),
            final(self).spec_sample_start_address() == old(self).spec_sample_start_address(),
            final(self).spec_sample_address() == old(self).spec_sample_address(),
            final(self).spec_sample_buffer() == old(self).spec_sample_buffer(),
    {
        proof {
            use_type_invariant(&*self);
        }
        self.output_unit.volume = value % 128;
    }

    /// Write 0x4012: the sample starts at 0xC000 plus 64 times the value (at most 0xFFC0).
    pub fn write_sample_start_address(&mut self, addr: u8)
        ensures
            final(self).spec_sample_start_address() == 0xC000 + 64 * addr,
            final(self).spec_irq_enabled() == old(self).spec_irq_enabled(),
            final(self).spec_should_loop() == old(self).spec_should_loop(),
            final(self).spec_period() == old(self).spec_period(),
            final(self).spec_cycles_remaining() == old(self).spec_cycles_remaining(),
            final(self).spec_sample_address() == old(self).spec_sample_address(),
            final(self).spec_sample_buffer() == old(self).spec_sample_buffer(),
            final(self).spec_output_unit() == old(self).spec_output_unit(),
    {
        proof {
            use_type_invariant(&*self);
        }
        // Minimum: 0xC000, Maximum: 0xFFC0
        let a = addr as u16;
        let start = 0xC000 | (a << 6);
        assert(start == 0xC000 + 64 * a) by (bit_vector)
            requires
                a < 256,
                start == 0xC000 | (a << 6),
        ;
        self.sample_start_address = start;
    }

    /// Every CPU cycle. The timer counts down; when it has run out, the output unit takes a step
    /// (unless silenced), and at the end of an eight bit output cycle the next sample, if one is
    /// buffered, is moved into the shifter. Returns whether a DMA reload of the sample buffer is
    /// to start: when a sample was moved while the DMA is enabled (`dma_enabled`).
    pub fn tick(&mut self, dma_enabled: bool) -> (start_reload: bool)
        ensures
            old(self).spec_cycles_remaining() >= 1 ==> {
                &&& final(self).spec_cycles_remaining() == old(self).spec_cycles_remaining() - 1
                &&& final(self).spec_output_unit() == old(self).spec_output_unit()
                &&& final(self).spec_sample_buffer() == old(self).spec_sample_buffer()
                &&& !start_reload
            },
            old(self).spec_cycles_remaining() == 0 ==> {
                let unit = old(self).spec_output_unit();
                let volume = if unit.spec_silenced() {
                    unit.spec_volume()
                } else {
                    spec_next_volume(unit.spec_volume(), unit.spec_sample_shifter())
                };
                let shifter = if unit.spec_silenced() {
                    unit.spec_sample_shifter()
                } else {
                    (unit.spec_sample_shifter() / 2) as u8
                };
                let bits = if unit.spec_bits_remaining() == 0 { 0 } else { unit.spec_bits_remaining() - 1 };
                &&& final(self).spec_cycles_remaining() == old(self).spec_period()
                &&& final(self).spec_output_unit().spec_volume() == volume
                &&& if bits > 0 {
                    &&& final(self).spec_output_unit().spec_bits_remaining() == bits
                    &&& final(self).spec_output_unit().spec_sample_shifter() == shifter
                    &&& final(self).spec_output_unit().spec_silenced() == unit.spec_silenced()
                    &&& final(self).spec_sample_buffer() == old(self).spec_sample_buffer()
                    &&& !start_reload
                } else {
                    &&& final(self).spec_output_unit().spec_bits_remaining() == 8
                    &&& final(self).spec_output_unit().spec_silenced() == (old(self).spec_sample_buffer() is None)
                    &&& final(self).spec_sample_buffer() is None
                    &&& final(self).spec_output_unit().spec_sample_shifter() == (match old(self).spec_sample_buffer() {
                        Some(sample) => sample,
                        None => shifter,
                    })
                    &&& start_reload == (old(self).spec_sample_buffer() is Some && dma_enabled)
                }
            },
            final(self).spec_irq_enabled() == old(self).spec_irq_enabled(),
            final(self).spec_should_loop() == old(self).spec_should_loop(),
            final(self).spec_period() == old(self).spec_period(),
            final(self).spec_sample_start_address() == old(self).spec_sample_start_address(),
            final(self).spec_sample_address() == old(self).spec_sample_address(),
    {
        proof {
            use_type_invariant(&*self);
        }
        // If we don't early return here, then we must be on a PUT cycle since all NTSC_PERIODs are even.
        if self.cycles_remaining >= 1 {
            self.cycles_remaining = self.cycles_remaining - 1;
            return false;
        }

        let shifter = self.output_unit.sample_shifter;
        assert((shifter & 1 == 1) == (shifter % 2 == 1) && shifter >> 1 == shifter / 2) by (bit_vector);
        if !self.output_unit.silenced {
            if self.output_unit.sample_shifter & 1 == 1 {
                if self.output_unit.volume < 126 {
                    self.output_unit.volume = self.output_unit.volume + 2;
                }
            } else {
                if self.output_unit.volume > 1 {
                    self.output_unit.volume = self.output_unit.volume - 2;
                }
            }

            self.output_unit.sample_shifter = self.output_unit.sample_shifter >> 1;
        }

        self.cycles_remaining = self.period;
        self.output_unit.bits_remaining = self.output_unit.bits_remaining.saturating_sub(1);
        if self.output_unit.bits_remaining > 0 {
            return false;
        }

        // Output cycle just ended, so start a new one.
        self.output_unit.bits_remaining = 8;
        self.output_unit.silenced = self.sample_buffer.is_none();
        let buffered = self.sample_buffer;
        self.sample_buffer = None;
        if let Some(sample) = buffered {
            self.output_unit.sample_shifter = sample;
            if dma_enabled {
                return true;
            }
        }
        false
    }

    /// The output level, or zero while silenced.
    pub fn sample_volume(&self) -> (r: u8)
        ensures
            r == (if self.spec_output_unit().spec_silenced() { 0 } else { self.spec_output_unit().spec_volume() }),
            r < 128,
    {
        proof {
            use_type_invariant(self);
        }
        if self.output_unit.silenced {
            0
        } else {
            self.output_unit.volume
        }
    }

    /// Write 0x4015 (the DMC's enable bit). Whatever the value, a pending DMC interrupt is
    /// acknowledged. Disabling asks the DMA to stop soon. Enabling, when the DMA is not already
    /// enabled (`dma_enabled`), enables it, restarts the sample from its start address and, when
    /// the sample buffer is empty, has the DMA start loading.
    pub fn set_enabled(&mut self, dma_enabled: bool, enable: bool) -> (r: DmcEnableAction)
        ensures
            !enable ==> r == DmcEnableAction::DisableDmaSoon,
            enable && dma_enabled ==> r == DmcEnableAction::Nothing,
            enable && !dma_enabled ==> r == (DmcEnableAction::EnableDma { start_load: old(self).spec_sample_buffer() is None }),
            final(self).spec_sample_address() == (if enable && !dma_enabled {
                old(self).spec_sample_start_address()
            } else {
                old(self).spec_sample_address()
            }),
            final(self).spec_irq_enabled() == old(self).spec_irq_enabled(),
            final(self).spec_should_loop() == old(self).spec_should_loop(),
            final(self).spec_period() == old(self).spec_period(),
            final(self).spec_cycles_remaining() == old(self).spec_cycles_remaining(),
            final(self).spec_sample_start_address() == old(self).spec_sample_start_address(),
            final(self).spec_sample_buffer() == old(self).spec_sample_buffer(),
            final(self).spec_output_unit() == old(self).spec_output_unit(),
    {
        proof {
            use_type_invariant(&*self);
        }
        if !enable {
            DmcEnableAction::DisableDmaSoon
        } else if !dma_enabled {
            self.sample_address = self.sample_start_address;
            DmcEnableAction::EnableDma { start_load: self.sample_buffer.is_none() }
        } else {
            DmcEnableAction::Nothing
        }
    }

    /// A DMA (load or reload) has fetched a sample byte. While the DMA is enabled
    /// (`dma_enabled`) the byte fills the sample buffer, the sample address moves on (from 0xFFFF
    /// it wraps to 0x8000) and the DMA counts one byte down. When that was the sample's last byte
    /// (`last_byte`: the DMA is disabled once it has counted down), a looping sample restarts:
    /// the DMA is enabled again from the start address; otherwise the DMC interrupt is asserted
    /// if it is enabled.
    pub fn set_sample_buffer(&mut self, dma_enabled: bool, last_byte: bool, value: u8) -> (r: SampleFetchOutcome)
        ensures
            !dma_enabled ==> r == SampleFetchOutcome::Dropped && *final(self) == *old(self),
            dma_enabled ==> {
                &&& final(self).spec_sample_buffer() == Some(value)
                &&& r == (if !last_byte {
                    SampleFetchOutcome::Stored
                } else if old(self).spec_should_loop() {
                    SampleFetchOutcome::StoredAndRestarted
                } else if old(self).spec_irq_enabled() {
                    SampleFetchOutcome::StoredAndInterrupted
                } else {
                    SampleFetchOutcome::Stored
                })
                &&& final(self).spec_sample_address() == (if last_byte && old(self).spec_should_loop() {
                    old(self).spec_sample_start_address()
                } else if old(self).spec_sample_address() == 0xFFFF {
                    0x8000
                } else {
                    (old(self).spec_sample_address() + 1) as u16
                })
                &&& final(self).spec_irq_enabled() == old(self).spec_irq_enabled()
                &&& final(self).spec_should_loop() == old(self).spec_should_loop()
                &&& final(self).spec_period() == old(self).spec_period()
                &&& final(self).spec_cycles_remaining() == old(self).spec_cycles_remaining()
                &&& final(self).spec_sample_start_address() == old(self).spec_sample_start_address()
                &&& final(self).spec_output_unit() == old(self).spec_output_unit()
            },
    {
        proof {
            use_type_invariant(&*self);
        }
        if !dma_enabled {
            return SampleFetchOutcome::Dropped;
        }
        self.sample_buffer = Some(value);
        let next_address = self.sample_address.wrapping_add(1);
        self.sample_address = if next_address == 0 { 0x8000 } else { next_address };
        if !last_byte {
            SampleFetchOutcome::Stored
        } else if self.should_loop {
            self.sample_address = self.sample_start_address;
            SampleFetchOutcome::StoredAndRestarted
        } else if self.irq_enabled {
            SampleFetchOutcome::StoredAndInterrupted
        } else {
            SampleFetchOutcome::Stored
        }
    }

    /// The address that the next sample DMA reads: always in the cartridge's space, 0x8000 and up.
    pub fn dma_sample_address(&self) -> (r: u16)
        ensures
            r == self.spec_sample_address(),
            r >= 0x8000,
    {
        proof {
            use_type_invariant(self);
        }
        self.sample_address
    }
}

impl Default for Dmc {
    fn default() -> (r: Dmc)
        ensures
            !r.spec_irq_enabled(),
            !r.spec_should_loop(),
            r.spec_period() == 427,
            r.spec_cycles_remaining() == 427,
            r.spec_sample_start_address() == 0xC000,
            r.spec_sample_address() == 0xC000,
            r.spec_sample_buffer() is None,
            r.spec_output_unit().spec_silenced(),
            r.spec_output_unit().spec_volume() == 0,
    {
        Dmc::new()
    }
}

/// What writing the DMC's enable bit asks of the DMA unit.
#[derive(PartialEq, Eq, Clone, Copy, Debug, Structural)]
pub enum DmcEnableAction {
    /// Stop the DMA soon.
    DisableDmaSoon,
    /// Enable the DMA, and start loading a sample byte if `start_load`.
    EnableDma { start_load: bool },
    /// Nothing: the DMA is already enabled.
    Nothing,
}

/// What became of a sample byte that a DMA fetched, and what the DMC asks in turn.
#[derive(PartialEq, Eq, Clone, Copy, Debug, Structural)]
pub enum SampleFetchOutcome {
    /// The DMA was disabled: the byte is dropped, and nothing changes.
    Dropped,
    /// The byte is in the sample buffer; the DMA counts one byte down.
    Stored,
    /// The byte is in the sample buffer and it was the last of a looping sample: the DMA counts
    /// down, then is enabled again.
    StoredAndRestarted,
    /// The byte is in the sample buffer and it was the last of the sample: the DMA counts down,
    /// and the DMC interrupt is to be asserted.
    StoredAndInterrupted,
}

/// Each output clock moves the output level by exactly two, or leaves it where it is, and keeps
/// it within seven bits.
pub proof fn lemma_output_level_moves_by_two(volume: u8, sample_shifter: u8)
    requires
        volume < 128,
    ensures
        spec_next_volume(volume, sample_shifter) < 128,
        spec_next_volume(volume, sample_shifter) == volume
            || spec_next_volume(volume, sample_shifter) == volume + 2
            || spec_next_volume(volume, sample_shifter) == volume - 2,
{
}

/// The sixteen DMC rates run from the slowest to the fastest: each rate index selects a shorter
/// period than the one before, and every period is an even number of CPU cycles.
pub proof fn lemma_dmc_rates_get_faster(i: int)
    requires
        0 <= i < 16,
    ensures
        spec_dmc_ntsc_periods().len() == 16,
        i < 15 ==> spec_dmc_ntsc_periods()[i] > spec_dmc_ntsc_periods()[i + 1],
        spec_dmc_ntsc_periods()[i] % 2 == 0,
{
    let periods = spec_dmc_ntsc_periods();
    assert(periods[0] == 428);
    assert(periods[1] == 380);
    assert(periods[2] == 340);
    assert(periods[3] == 320);
    assert(periods[4] == 286);
    assert(periods[5] == 254);
    assert(periods[6] == 226);
    assert(periods[7] == 214);
    assert(periods[8] == 190);
    assert(periods[9] == 160);
    assert(periods[10] == 142);
    assert(periods[11] == 128);
    assert(periods[12] == 106);
    assert(periods[13] == 84);
    assert(periods[14] == 72);
    assert(periods[15] == 54);
    if i == 0 {} else if i == 1 {} else if i == 2 {} else if i == 3 {} else if i == 4 {} else if i == 5 {} else if i == 6 {} else if i == 7 {} else if i == 8 {} else if i == 9 {} else if i == 10 {} else if i == 11 {} else if i == 12 {} else if i == 13 {} else if i == 14 {} else if i == 15 {} else {}
}

} // verus!
