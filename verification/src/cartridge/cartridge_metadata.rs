use vstd::prelude::*;

verus! {

/// Which kind of console a cartridge is for.
#[derive(PartialEq, Eq, Clone, Copy, Debug, Structural)]
pub enum ConsoleType {
    NesFamiconDendy,
    Vs,
    PlayChoice10,
    /// One of the extended console types, by its number.
    Extended(u8),
}

impl ConsoleType {
    /// The console type of an iNES header (two bits). Extended types need a NES 2.0 header.
    pub fn basic(value: u8) -> (r: Result<ConsoleType, CartridgeMetadataError>)
        requires
            value < 4,
        ensures
            r == Self::spec_basic(value),
    {
        match value {
            0 => Ok(ConsoleType::NesFamiconDendy),
            1 => Ok(ConsoleType::Vs),
            2 => Ok(ConsoleType::PlayChoice10),
            _ => Err(CartridgeMetadataError::ExtendedConsoleTypeWithoutNes2),
        }
    }

    pub open spec fn spec_basic(value: u8) -> Result<ConsoleType, CartridgeMetadataError> {
        if value == 0 {
            Ok(ConsoleType::NesFamiconDendy)
        } else if value == 1 {
            Ok(ConsoleType::Vs)
        } else if value == 2 {
            Ok(ConsoleType::PlayChoice10)
        } else {
            Err(CartridgeMetadataError::ExtendedConsoleTypeWithoutNes2)
        }
    }

    /// The console type of a NES 2.0 header: the two basic bits, and for the extended type,
    /// the extended console type number (four bits).
    pub fn extended(value: u8, extended_value: u8) -> (r: Result<ConsoleType, CartridgeMetadataError>)
        requires
            value < 4,
            extended_value < 16,
        ensures
            r == Self::spec_extended(value, extended_value),
    {
        if value < 3 {
            Self::basic(value)
        } else {
            Ok(ConsoleType::Extended(extended_value))
        }
    }

    pub open spec fn spec_extended(value: u8, extended_value: u8) -> Result<ConsoleType, CartridgeMetadataError> {
        if value < 3 {
            Self::spec_basic(value)
        } else {
            Ok(ConsoleType::Extended(extended_value))
        }
    }
}

/// The region timing that a cartridge is made for.
#[derive(PartialEq, Eq, Clone, Copy, Debug, Structural)]
pub enum TimingMode {
    Ntsc,
    Pal,
    MultiRegion,
    Dendy,
}

impl TimingMode {
    pub open spec fn spec_from_u8(value: u8) -> TimingMode {
        if value == 0 {
            TimingMode::Ntsc
        } else if value == 1 {
            TimingMode::Pal
        } else if value == 2 {
            TimingMode::MultiRegion
        } else {
            TimingMode::Dendy
        }
    }

    /// The timing mode of a NES 2.0 header (two bits).
    pub fn from_u8(value: u8) -> (r: TimingMode)
        requires
            value < 4,
        ensures
            r == Self::spec_from_u8(value),
    {
        match value {
            0 => TimingMode::Ntsc,
            1 => TimingMode::Pal,
            2 => TimingMode::MultiRegion,
            _ => TimingMode::Dendy,
        }
    }
}

#[derive(PartialEq, Eq, Clone, Copy, Debug, Structural)]
pub enum CartridgeMetadataError {
    ExtendedConsoleTypeWithoutNes2,
}

/// What is known about a cartridge, from its header or from elsewhere. Anything may be unknown.
#[derive(PartialEq, Eq, Clone, Copy, Debug, Structural)]
pub struct CartridgeMetadata {
    pub mapper_number: Option<u16>,
    pub submapper_number: Option<u8>,
    pub prg_rom_size: Option<u32>,
    pub prg_work_ram_size: Option<u32>,
    pub prg_save_ram_size: Option<u32>,
    pub chr_rom_size: Option<u32>,
    pub chr_work_ram_size: Option<u32>,
    pub chr_save_ram_size: Option<u32>,
    pub has_persistent_memory: Option<bool>,
    pub name_table_mirroring_index: Option<u8>,
    /// The name table mirroring that the header database gives, by its one-character code.
    pub name_table_mirroring_code: Option<char>,
    pub console_type: Option<ConsoleType>,
    pub timing_mode: Option<TimingMode>,
    pub miscellaneous_rom_count: Option<u8>,
    pub default_expansion_device: Option<u8>,
    pub vs_hardware_type: Option<u8>,
    pub vs_ppu_type: Option<u8>,
    pub full_hash: Option<u32>,
    pub prg_rom_hash: Option<u32>,
    pub chr_rom_hash: Option<u32>,
}

impl CartridgeMetadata {
    pub open spec fn spec_empty() -> CartridgeMetadata {
        CartridgeMetadata {
            mapper_number: None,
            submapper_number: None,
            prg_rom_size: None,
            prg_work_ram_size: None,
            prg_save_ram_size: None,
            chr_rom_size: None,
            chr_work_ram_size: None,
            chr_save_ram_size: None,
            has_persistent_memory: None,
            name_table_mirroring_index: None,
            name_table_mirroring_code: None,
            console_type: None,
            timing_mode: None,
            miscellaneous_rom_count: None,
            default_expansion_device: None,
            vs_hardware_type: None,
            vs_ppu_type: None,
            full_hash: None,
            prg_rom_hash: None,
            chr_rom_hash: None,
        }
    }

    /// Nothing known.
    pub fn empty() -> (r: CartridgeMetadata)
        ensures
            r == Self::spec_empty(),
    {
        CartridgeMetadata {
            mapper_number: None,
            submapper_number: None,
            prg_rom_size: None,
            prg_work_ram_size: None,
            prg_save_ram_size: None,
            chr_rom_size: None,
            chr_work_ram_size: None,
            chr_save_ram_size: None,
            has_persistent_memory: None,
            name_table_mirroring_index: None,
            name_table_mirroring_code: None,
            console_type: None,
            timing_mode: None,
            miscellaneous_rom_count: None,
            default_expansion_device: None,
            vs_hardware_type: None,
            vs_ppu_type: None,
            full_hash: None,
            prg_rom_hash: None,
            chr_rom_hash: None,
        }
    }

    /// Only a mapper number and a submapper number known.
    pub fn with_mapper_and_submapper_number(mapper_number: u16, submapper_number: u8) -> (r: CartridgeMetadata)
        ensures
            r == (CartridgeMetadata {
                mapper_number: Some(mapper_number),
                submapper_number: Some(submapper_number),
                ..Self::spec_empty()
            }),
    {
        CartridgeMetadata {
            mapper_number: Some(mapper_number),
            submapper_number: Some(submapper_number),
            ..Self::empty()
        }
    }
}

} // verus!
