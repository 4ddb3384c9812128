use vstd::prelude::*;

verus! {

/// The memory sizes of a cartridge, once the header, the database and any overrides have been
/// reconciled.
#[derive(PartialEq, Eq, Clone, Copy, Debug, Structural)]
pub struct ResolvedMetadata {
    pub prg_rom_size: u32,
    pub prg_work_ram_size: u32,
    pub prg_save_ram_size: u32,
    pub chr_rom_size: u32,
    pub chr_work_ram_size: u32,
    pub chr_save_ram_size: u32,
}

} // verus!
