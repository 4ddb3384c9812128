use vstd::prelude::*;

verus! {

/// Whether a CHR window of a layout lacks, may have, or needs a kind of memory (ROM or RAM),
/// from the weakest to the strongest.
#[derive(PartialEq, Eq, Clone, Copy, Debug, Structural)]
pub enum MemoryPresence {
    Absent,
    Optional,
    Required,
}

impl MemoryPresence {
    /// The strength of a presence: absent, optional, required.
    pub open spec fn spec_rank(self) -> nat {
        match self {
            MemoryPresence::Absent => 0,
            MemoryPresence::Optional => 1,
            MemoryPresence::Required => 2,
        }
    }

    /// The stronger of two presences.
    pub open spec fn spec_max(self, other: MemoryPresence) -> MemoryPresence {
        if other.spec_rank() > self.spec_rank() { other } else { self }
    }

    /// The stronger of two presences.
    pub fn max(self, other: MemoryPresence) -> (r: MemoryPresence)
        ensures
            r == self.spec_max(other),
    {
        let self_rank: u8 = match self {
            MemoryPresence::Absent => 0,
            MemoryPresence::Optional => 1,
            MemoryPresence::Required => 2,
        };
        let other_rank: u8 = match other {
            MemoryPresence::Absent => 0,
            MemoryPresence::Optional => 1,
            MemoryPresence::Required => 2,
        };
        if other_rank > self_rank { other } else { self }
    }
}

/// A CHR window of a layout: its size, and how present ROM and RAM are in it.
pub type ChrWindowSpec = (u16, MemoryPresence, MemoryPresence);

/// The smallest size among the windows (zero when there are none).
pub open spec fn spec_smallest_window(windows: Seq<ChrWindowSpec>) -> u16
    decreases windows.len(),
{
    if windows.len() <= 1 {
        if windows.len() == 0 { 0 } else { windows[0].0 }
    } else {
        let rest = spec_smallest_window(windows.drop_last());
        if windows.last().0 < rest { windows.last().0 } else { rest }
    }
}

/// The strongest ROM presence among the windows (absent when there are none).
pub open spec fn spec_rom_presence(windows: Seq<ChrWindowSpec>) -> MemoryPresence
    decreases windows.len(),
{
    if windows.len() == 0 {
        MemoryPresence::Absent
    } else {
        spec_rom_presence(windows.drop_last()).spec_max(windows.last().1)
    }
}

/// The strongest RAM presence among the windows (absent when there are none).
pub open spec fn spec_ram_presence(windows: Seq<ChrWindowSpec>) -> MemoryPresence
    decreases windows.len(),
{
    if windows.len() == 0 {
        MemoryPresence::Absent
    } else {
        spec_ram_presence(windows.drop_last()).spec_max(windows.last().2)
    }
}

/// Why CHR memory can't be set up for a cartridge.
#[derive(PartialEq, Eq, Clone, Copy, Debug, Structural)]
pub enum ChrMemoryError {
    /// The layout requires CHR ROM, but the ROM file has none.
    RomRequired,
    /// The layout requires CHR RAM, but the cartridge has none.
    RamRequired,
}

/// How CHR memory is set up for a cartridge from the windows of all its layouts.
#[derive(PartialEq, Eq, Clone, Copy, Debug, Structural)]
pub struct ChrPlan {
    /// The bank size: the smallest window.
    pub bank_size: u16,
    /// The strongest ROM presence of any window.
    pub rom_presence: MemoryPresence,
    /// The strongest RAM presence of any window.
    pub ram_presence: MemoryPresence,
    /// The size of the CHR ROM that is kept (zero if it is dropped).
    pub rom_len: u32,
    /// The size of the CHR RAM that is kept (zero if it is dropped).
    pub ram_len: u32,
    /// The size of an outer ROM bank: the kept ROM divided evenly among the outer banks.
    pub rom_outer_bank_size: u32,
}

/// The CHR ROM size that is kept: when both ROM and RAM are present, a memory that no window
/// admits is dropped.
pub open spec fn spec_kept_rom_len(windows: Seq<ChrWindowSpec>, rom_len: u32, ram_len: u32) -> u32 {
    if rom_len != 0 && ram_len != 0 && spec_rom_presence(windows) == MemoryPresence::Absent { 0 } else { rom_len }
}

/// The CHR RAM size that is kept (see `spec_kept_rom_len`).
pub open spec fn spec_kept_ram_len(windows: Seq<ChrWindowSpec>, rom_len: u32, ram_len: u32) -> u32 {
    if rom_len != 0 && ram_len != 0 && spec_ram_presence(windows) == MemoryPresence::Absent { 0 } else { ram_len }
}

/// The error, if any: a required ROM that is empty is reported before a required RAM that is.
pub open spec fn spec_plan_error(windows: Seq<ChrWindowSpec>, rom_len: u32, ram_len: u32) -> Option<ChrMemoryError> {
    if spec_rom_presence(windows) == MemoryPresence::Required && rom_len == 0 {
        Some(ChrMemoryError::RomRequired)
    } else if spec_ram_presence(windows) == MemoryPresence::Required && ram_len == 0 {
        Some(ChrMemoryError::RamRequired)
    } else {
        None
    }
}

/// Plans CHR memory from the windows of every layout, the sizes of the cartridge's CHR ROM and
/// RAM, and the number of outer ROM banks: the bank size is the smallest window; a memory that
/// some window requires must be there; when both memories are there, one that no window admits
/// is dropped; and the kept ROM is split evenly into the outer banks.
pub fn plan_chr_memory(windows: &Vec<ChrWindowSpec>, rom_len: u32, ram_len: u32, outer_banks: u16)
    -> (r: Result<ChrPlan, ChrMemoryError>)
    requires
        windows@.len() > 0,
        outer_banks > 0,
        spec_plan_error(windows@, rom_len, ram_len) is None
            ==> spec_kept_rom_len(windows@, rom_len, ram_len) % (outer_banks as u32) == 0,
    ensures
        match spec_plan_error(windows@, rom_len, ram_len) {
            Some(e) => r == Err::<ChrPlan, ChrMemoryError>(e),
            None => r == Ok::<ChrPlan, ChrMemoryError>(ChrPlan {
                bank_size: spec_smallest_window(windows@),
                rom_presence: spec_rom_presence(windows@),
                ram_presence: spec_ram_presence(windows@),
                rom_len: spec_kept_rom_len(windows@, rom_len, ram_len),
                ram_len: spec_kept_ram_len(windows@, rom_len, ram_len),
                rom_outer_bank_size: (spec_kept_rom_len(windows@, rom_len, ram_len) / (outer_banks as u32)) as u32,
            }),
        },
{
    let mut bank_size: u16 = windows[0].0;
    let mut rom_presence = MemoryPresence::Absent.max(windows[0].1);
    let mut ram_presence = MemoryPresence::Absent.max(windows[0].2);
    let mut i: usize = 1;
    proof {
        let first = windows@.subrange(0, 1);
        assert(first.drop_last() =~= Seq::<ChrWindowSpec>::empty());
        assert(first.last() == windows@[0]);
        assert(spec_rom_presence(first) == spec_rom_presence(first.drop_last()).spec_max(first.last().1));
        assert(spec_ram_presence(first) == spec_ram_presence(first.drop_last()).spec_max(first.last().2));
    }
    while i < windows.len()
        invariant
            1 <= i <= windows@.len(),
            bank_size == spec_smallest_window(windows@.subrange(0, i as int)),
            rom_presence == spec_rom_presence(windows@.subrange(0, i as int)),
            ram_presence == spec_ram_presence(windows@.subrange(0, i as int)),
        decreases windows@.len() - i,
    {
        let (size, rom, ram) = windows[i];
        proof {
            assert(windows@.subrange(0, i + 1).drop_last() =~= windows@.subrange(0, i as int));
            assert(windows@.subrange(0, i + 1).last() == windows@[i as int]);
        }
        if size < bank_size {
            bank_size = size;
        }
        rom_presence = rom_presence.max(rom);
        ram_presence = ram_presence.max(ram);
        i = i + 1;
    }
    proof {
        assert(windows@.subrange(0, windows@.len() as int) =~= windows@);
    }

    if rom_presence == MemoryPresence::Required && rom_len == 0 {
        return Err(ChrMemoryError::RomRequired);
    }
    if ram_presence == MemoryPresence::Required && ram_len == 0 {
        return Err(ChrMemoryError::RamRequired);
    }

    let mut kept_rom_len = rom_len;
    let mut kept_ram_len = ram_len;
    if rom_len != 0 && ram_len != 0 {
        if rom_presence == MemoryPresence::Absent {
            kept_rom_len = 0;
        }
        if ram_presence == MemoryPresence::Absent {
            kept_ram_len = 0;
        }
    }

    Ok(ChrPlan {
        bank_size,
        rom_presence,
        ram_presence,
        rom_len: kept_rom_len,
        ram_len: kept_ram_len,
        rom_outer_bank_size: kept_rom_len / (outer_banks as u32),
    })
}

} // verus!
