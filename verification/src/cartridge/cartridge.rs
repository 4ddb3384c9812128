use vstd::prelude::*;

use crate::cartridge::cartridge_metadata::{CartridgeMetadata, CartridgeMetadataError, ConsoleType, TimingMode};

verus! {

pub const KIBIBYTE: u32 = 1024;
pub const PRG_ROM_CHUNK_LENGTH: u32 = 16384;
pub const CHR_ROM_CHUNK_LENGTH: u32 = 8192;
pub const HEADER_LENGTH: usize = 16;

/// The CRC-32 register after shifting `n` more bits through it (reflected, polynomial 0xEDB88320).
pub open spec fn crc32_shift(crc: u32, n: nat) -> u32
    decreases n,
{
    if n == 0 {
        crc
    } else if crc & 1 == 1 {
        crc32_shift((crc >> 1) ^ 0xEDB88320, (n - 1) as nat)
    } else {
        crc32_shift(crc >> 1, (n - 1) as nat)
    }
}

/// The CRC-32 register after some bytes, starting from all ones.
pub open spec fn crc32_register(bytes: Seq<u8>) -> u32
    decreases bytes.len(),
{
    if bytes.len() == 0 {
        0xFFFF_FFFF
    } else {
        crc32_shift(crc32_register(bytes.drop_last()) ^ (bytes.last() as u32), 8)
    }
}

/// The CRC-32 (IEEE) checksum of some bytes: the final register, inverted.
pub open spec fn crc32(bytes: Seq<u8>) -> u32 {
    crc32_register(bytes) ^ 0xFFFF_FFFF
}

/// The characters that some bytes encode in UTF-8, if they are valid UTF-8.
pub uninterp spec fn utf8_chars(bytes: Seq<u8>) -> Option<Seq<char>>;

/// Whether every byte is ASCII (below 0x80).
pub open spec fn is_ascii(bytes: Seq<u8>) -> bool {
    forall|i: int| 0 <= i < bytes.len() ==> #[trigger] bytes[i] < 0x80
}

/// The characters of ASCII bytes: one each, of the same value.
pub open spec fn ascii_chars(bytes: Seq<u8>) -> Seq<char> {
    bytes.map_values(|b: u8| b as char)
}

/// The file name of a path without its extension, if the path has a file name. Paths are read as
/// `std::path` reads them on the target: `/` separates components everywhere, `\\` on Windows too.
pub uninterp spec fn file_stem(path: Seq<char>) -> Option<Seq<char>>;

/// The last component of a path, if it is a file name (separators as for `file_stem`).
pub uninterp spec fn file_name(path: Seq<char>) -> Option<Seq<char>>;

/// A path extended by one component, joined with the target's separator.
pub uninterp spec fn path_join(base: Seq<char>, component: Seq<char>) -> Seq<char>;

/// A path whose extension is replaced (or added), its file name found as for `file_stem`.
pub uninterp spec fn path_with_extension(path: Seq<char>, extension: Seq<char>) -> Seq<char>;

/// Computes the CRC-32 (IEEE) checksum with `crc32fast::hash`.
#[verifier::external_body]
fn crc32_hash(bytes: &[u8]) -> (r: u32)
    ensures
        r == crc32(bytes@),
{
    crc32fast::hash(bytes)
}

/// Decodes UTF-8 with `std::str::from_utf8`; the result is `None` exactly when the bytes are not
/// valid UTF-8, and otherwise the decoded characters. Bytes that are all ASCII (below 0x80)
/// decode to one character each, of the same value.
#[verifier::external_body]
fn decode_utf8(bytes: &[u8]) -> (r: Option<Vec<char>>)
    ensures
        r is Some <==> utf8_chars(bytes@) is Some,
        r matches Some(chars) ==> utf8_chars(bytes@) == Some(chars@),
        r is None ==> !is_ascii(bytes@),
        r matches Some(chars) ==> (is_ascii(bytes@) ==> chars@ == ascii_chars(bytes@)),
{
    match std::str::from_utf8(bytes) {
        Ok(text) => Some(text.chars().collect()),
        Err(_) => None,
    }
}

/// The file stem of a path, by `std::path::Path::file_stem`.
#[verifier::external_body]
fn std_file_stem(path: &str) -> (r: Option<String>)
    ensures
        r is Some <==> file_stem(path@) is Some,
        r matches Some(stem) ==> file_stem(path@) == Some(stem@),
{
    std::path::Path::new(path).file_stem().map(|stem| stem.to_string_lossy().into_owned())
}

/// The file name of a path, by `std::path::Path::file_name`.
#[verifier::external_body]
fn std_file_name(path: &str) -> (r: Option<String>)
    ensures
        r is Some <==> file_name(path@) is Some,
        r matches Some(name) ==> file_name(path@) == Some(name@),
{
    std::path::Path::new(path).file_name().map(|name| name.to_string_lossy().into_owned())
}

/// Extends a path by one component, by `std::path::PathBuf::push`.
#[verifier::external_body]
fn std_path_join(base: &str, component: &str) -> (r: String)
    ensures
        r@ == path_join(base@, component@),
{
    let mut path = std::path::PathBuf::from(base);
    path.push(component);
    path.to_string_lossy().into_owned()
}

/// Replaces the extension of a path, by `std::path::PathBuf::set_extension`, which panics when the
/// extension holds a path separator: `/` on every target, and `\\` too on Windows. Neither is
/// admitted.
#[verifier::external_body]
fn std_path_with_extension(path: &str, extension: &str) -> (r: String)
    requires
        !extension@.contains('/'),
        !extension@.contains('\\'),
    ensures
        r@ == path_with_extension(path@, extension@),
{
    let mut path = std::path::PathBuf::from(path);
    path.set_extension(extension);
    path.to_string_lossy().into_owned()
}

/// Why a ROM file couldn't be loaded.
#[derive(PartialEq, Eq, Clone, Copy, Debug, Structural)]
pub enum CartridgeError {
    /// The file is shorter than its 16 byte header.
    HeaderTooShort,
    /// The file doesn't start with "NES" and 0x1A.
    NotInes,
    /// Trainers aren't supported.
    TrainerUnsupported,
    /// The console type isn't valid for the header's format.
    Metadata(CartridgeMetadataError),
    /// The file is shorter than the PRG ROM size that its header claims.
    PrgRomTooShort { claimed_kib: u32 },
    /// The file is shorter than the CHR ROM size that its header claims; what follows the PRG ROM
    /// is `actual_kib` (rounded down).
    ChrRomTooShort { claimed_kib: u32, actual_kib: u32 },
    /// What follows the ROM must be empty or a 127 or 128 byte title.
    BadTitleLength { length: usize },
    /// The title isn't valid UTF-8.
    TitleNotUtf8,
}

pub open spec fn pow2(n: nat) -> nat
    decreases n,
{
    if n == 0 {
        1
    } else {
        2 * pow2((n - 1) as nat)
    }
}

/// A RAM size in a NES 2.0 header: zero, or 64 bytes shifted left by the value.
pub open spec fn shifted_size(shift: u8) -> u32 {
    if shift == 0 {
        0
    } else {
        (64 * pow2(shift as nat)) as u32
    }
}

/// Whether a valid NES 2.0 header without a trainer uses a size notation that isn't supported
/// (the exponent notation).
pub open spec fn uses_exponent_notation(raw: Seq<u8>) -> bool {
    &&& raw.len() >= HEADER_LENGTH
    &&& raw[0] == 0x4E && raw[1] == 0x45 && raw[2] == 0x53 && raw[3] == 0x1A
    &&& (raw[6] / 4) % 2 == 0
    &&& (raw[7] / 4) % 4 == 2
    &&& (raw[9] / 16 == 15 || raw[9] % 16 == 15)
}

/// The metadata that a ROM file's header (iNES or NES 2.0) gives.
pub open spec fn spec_parse(raw: Seq<u8>) -> Result<CartridgeMetadata, CartridgeError> {
    if raw.len() < 8 {
        Err(CartridgeError::HeaderTooShort)
    } else if !(raw[0] == 0x4E && raw[1] == 0x45 && raw[2] == 0x53 && raw[3] == 0x1A) {
        Err(CartridgeError::NotInes)
    } else if (raw[6] / 4) % 2 == 1 {
        Err(CartridgeError::TrainerUnsupported)
    } else {
        let mapper_low = raw[6] / 16;
        let mirroring = (2 * ((raw[6] / 8) % 2) + raw[6] % 2) as u8;
        let battery = (raw[6] / 2) % 2 == 1;
        let mapper_middle = raw[7] / 16;
        let console = raw[7] % 4;
        let base = CartridgeMetadata {
            has_persistent_memory: Some(battery),
            name_table_mirroring_index: Some(mirroring),
            full_hash: Some(crc32(raw)),
            ..CartridgeMetadata::spec_empty()
        };
        if (raw[7] / 4) % 4 == 2 {
            if raw.len() < HEADER_LENGTH {
                Err(CartridgeError::HeaderTooShort)
            } else {
                match ConsoleType::spec_extended(console, raw[13] % 16) {
                    Err(e) => Err(CartridgeError::Metadata(e)),
                    Ok(console_type) => {
                        let metadata = CartridgeMetadata {
                            mapper_number: Some((256 * (raw[8] % 16) + 16 * mapper_middle + mapper_low) as u16),
                            submapper_number: Some(raw[8] / 16),
                            prg_rom_size: Some(((256 * (raw[9] % 16) + raw[4]) * PRG_ROM_CHUNK_LENGTH) as u32),
                            chr_rom_size: Some(((256 * (raw[9] / 16) + raw[5]) * CHR_ROM_CHUNK_LENGTH) as u32),
                            prg_save_ram_size: Some(shifted_size(raw[10] / 16)),
                            prg_work_ram_size: Some(shifted_size(raw[10] % 16)),
                            chr_save_ram_size: Some(shifted_size(raw[11] / 16)),
                            chr_work_ram_size: Some(shifted_size(raw[11] % 16)),
                            console_type: Some(console_type),
                            timing_mode: Some(TimingMode::spec_from_u8(raw[12] % 4)),
                            miscellaneous_rom_count: Some(raw[14] % 4),
                            default_expansion_device: Some(raw[15] % 64),
                            ..base
                        };
                        if console_type == ConsoleType::Vs {
                            Ok(CartridgeMetadata {
                                vs_hardware_type: Some(raw[13] / 16),
                                vs_ppu_type: Some(raw[13] % 16),
                                ..metadata
                            })
                        } else {
                            Ok(metadata)
                        }
                    },
                }
            }
        } else {
            match ConsoleType::spec_basic(console) {
                Err(e) => Err(CartridgeError::Metadata(e)),
                Ok(console_type) => Ok(CartridgeMetadata {
                    mapper_number: Some((16 * mapper_middle + mapper_low) as u16),
                    submapper_number: None,
                    prg_rom_size: Some((raw[4] * PRG_ROM_CHUNK_LENGTH) as u32),
                    chr_rom_size: Some((raw[5] * CHR_ROM_CHUNK_LENGTH) as u32),
                    console_type: Some(console_type),
                    ..base
                }),
            }
        }
    }
}

/// The header's fields by position: the mapper number's low nibble is the high nibble of byte 6
/// and its next nibble the high nibble of byte 7 (then, for NES 2.0, the low nibble of byte 8,
/// whose high nibble is the submapper); byte 4 counts 16 KiB PRG ROM banks and byte 5 counts
/// 8 KiB CHR ROM banks (NES 2.0 adds the nibbles of byte 9 as the high bits of those counts);
/// bit 1 of byte 6 is the battery.
pub proof fn lemma_header_fields_by_position(raw: Seq<u8>)
    ensures
        spec_parse(raw) matches Ok(h) ==> {
            let nes2 = (raw[7] / 4) % 4 == 2;
            let mapper = h.mapper_number->Some_0;
            &&& h.mapper_number is Some && h.prg_rom_size is Some && h.chr_rom_size is Some
            &&& mapper % 16 == raw[6] / 16
            &&& (mapper / 16) % 16 == raw[7] / 16
            &&& mapper / 256 == (if nes2 { raw[8] % 16 } else { 0 })
            &&& h.submapper_number == (if nes2 { Some(raw[8] / 16) } else { None })
            &&& h.prg_rom_size->Some_0 == 16384 * (raw[4] + (if nes2 { 256 * (raw[9] % 16) } else { 0 }))
            &&& h.chr_rom_size->Some_0 == 8192 * (raw[5] + (if nes2 { 256 * (raw[9] / 16) } else { 0 }))
            &&& h.has_persistent_memory == Some((raw[6] / 2) % 2 == 1)
            &&& h.full_hash == Some(crc32(raw))
        },
{
}

/// The characters before the first NUL.
pub open spec fn until_nul(chars: Seq<char>) -> Seq<char>
    decreases chars.len(),
{
    if chars.len() == 0 || chars[0] == '\0' {
        Seq::empty()
    } else {
        seq![chars[0]] + until_nul(chars.drop_first())
    }
}

/// A ROM file, split into its parts.
pub struct Cartridge {
    path: CartridgePath,
    header: CartridgeMetadata,
    title: Vec<char>,
    prg_rom: Vec<u8>,
    chr_rom: Vec<u8>,
}

impl Cartridge {
    /// The PRG and CHR ROMs have the sizes that the header gives.
    #[verifier::type_invariant]
    closed spec fn sizes_match_header(&self) -> bool {
        &&& self.prg_rom@.len() <= u32::MAX
        &&& self.chr_rom@.len() <= u32::MAX
        &&& self.header.prg_rom_size == Some(self.prg_rom@.len() as u32)
        &&& self.header.chr_rom_size == Some(self.chr_rom@.len() as u32)
    }

    pub closed spec fn spec_path(&self) -> Seq<char> { self.path.0@ }
    pub closed spec fn spec_header(&self) -> CartridgeMetadata { self.header }
    pub closed spec fn spec_title(&self) -> Seq<char> { self.title@ }
    pub closed spec fn spec_prg_rom(&self) -> Seq<u8> { self.prg_rom@ }
    pub closed spec fn spec_chr_rom(&self) -> Seq<u8> { self.chr_rom@ }

    /// Splits a ROM file into its header, PRG ROM, CHR ROM and title (the text before the first
    /// NUL of an optional 127 or 128 byte trailer). The header gains the ROM checksums.
    pub fn load(path: &str, raw_header_and_data: &[u8]) -> (r: Result<Cartridge, CartridgeError>)
        requires
            !uses_exponent_notation(raw_header_and_data@),
        ensures
            spec_parse(raw_header_and_data@) is Err ==> r == Err::<Cartridge, CartridgeError>(
                spec_parse(raw_header_and_data@)->Err_0,
            ),
            spec_parse(raw_header_and_data@) matches Ok(header) ==> {
                let raw = raw_header_and_data@;
                let prg_end = HEADER_LENGTH + header.prg_rom_size.unwrap();
                let chr_end = prg_end + header.chr_rom_size.unwrap();
                let title_length = raw.len() - chr_end;
                &&& prg_end > raw.len() ==> r == Err::<Cartridge, CartridgeError>(
                    CartridgeError::PrgRomTooShort { claimed_kib: (header.prg_rom_size.unwrap() / KIBIBYTE) as u32 })
                &&& prg_end <= raw.len() && chr_end > raw.len() ==> r == Err::<Cartridge, CartridgeError>(
                    CartridgeError::ChrRomTooShort {
                        claimed_kib: (header.chr_rom_size.unwrap() / KIBIBYTE) as u32,
                        actual_kib: ((raw.len() - prg_end) / KIBIBYTE as int) as u32,
                    })
                &&& chr_end <= raw.len() && !(title_length == 0 || title_length == 127 || title_length == 128)
                    ==> r == Err::<Cartridge, CartridgeError>(CartridgeError::BadTitleLength { length: title_length as usize })
                &&& chr_end <= raw.len() && (title_length == 0 || title_length == 127 || title_length == 128)
                    && utf8_chars(raw.subrange(chr_end as int, raw.len() as int)) is None
                    ==> r == Err::<Cartridge, CartridgeError>(CartridgeError::TitleNotUtf8)
                &&& r is Ok <==> chr_end <= raw.len() && (title_length == 0 || title_length == 127 || title_length == 128)
                    && utf8_chars(raw.subrange(chr_end as int, raw.len() as int)) is Some
                &&& chr_end <= raw.len() && (title_length == 0 || title_length == 127 || title_length == 128)
                    && is_ascii(raw.subrange(chr_end as int, raw.len() as int)) ==> r is Ok
                &&& r matches Ok(cartridge) ==> {
                    &&& cartridge.spec_path() == path@
                    &&& cartridge.spec_prg_rom() == raw.subrange(HEADER_LENGTH as int, prg_end as int)
                    &&& cartridge.spec_chr_rom() == raw.subrange(prg_end as int, chr_end as int)
                    &&& cartridge.spec_header() == (CartridgeMetadata {
                        prg_rom_hash: Some(crc32(cartridge.spec_prg_rom())),
                        chr_rom_hash: Some(crc32(cartridge.spec_chr_rom())),
                        ..header
                    })
                    &&& cartridge.spec_title() == until_nul(utf8_chars(raw.subrange(chr_end as int, raw.len() as int))->Some_0)
                }
            },
    {
        let mut header = match Self::parse(raw_header_and_data) {
            Ok(header) => header,
            Err(e) => return Err(e),
        };
        let path = CartridgePath(path.to_string());
        let len = raw_header_and_data.len();
        let prg_rom_size = header.prg_rom_size.unwrap();
        let chr_rom_size = header.chr_rom_size.unwrap();

        let prg_rom_start = HEADER_LENGTH;
        if len < prg_rom_start || prg_rom_size as usize > len - prg_rom_start {
            return Err(CartridgeError::PrgRomTooShort { claimed_kib: prg_rom_size / KIBIBYTE });
        }
        let prg_rom_end = prg_rom_start + prg_rom_size as usize;
        let prg_rom = copy_range(raw_header_and_data, prg_rom_start, prg_rom_end);

        let chr_rom_start = prg_rom_end;
        if chr_rom_size as usize > len - chr_rom_start {
            return Err(CartridgeError::ChrRomTooShort {
                claimed_kib: chr_rom_size / KIBIBYTE,
                actual_kib: ((len - chr_rom_start) / (KIBIBYTE as usize)) as u32,
            });
        }
        let chr_rom_end = chr_rom_start + chr_rom_size as usize;
        let chr_rom = copy_range(raw_header_and_data, chr_rom_start, chr_rom_end);

        header.prg_rom_hash = Some(crc32_hash(prg_rom.as_slice()));
        header.chr_rom_hash = Some(crc32_hash(chr_rom.as_slice()));

        let title_length = len - chr_rom_end;
        let title_length_is_proper = title_length == 0 || title_length == 127 || title_length == 128;
        if !title_length_is_proper {
            return Err(CartridgeError::BadTitleLength { length: title_length });
        }
        let chars = match decode_utf8(&raw_header_and_data[chr_rom_end..len]) {
            Some(chars) => chars,
            None => return Err(CartridgeError::TitleNotUtf8),
        };
        let title = chars_until_nul(&chars);
        Ok(Cartridge { path, header, title, prg_rom, chr_rom })
    }

    /// Whether a ROM file's header is a NES 2.0 header (with the NES magic and no trainer) that
    /// gives a ROM size in exponent notation, which `load` doesn't support.
    pub fn header_uses_exponent_notation(raw: &[u8]) -> (r: bool)
        ensures
            r == uses_exponent_notation(raw@),
    {
        raw.len() >= HEADER_LENGTH
            && raw[0] == 0x4E && raw[1] == 0x45 && raw[2] == 0x53 && raw[3] == 0x1A
            && (raw[6] / 4) % 2 == 0
            && (raw[7] / 4) % 4 == 2
            && (raw[9] / 16 == 15 || raw[9] % 16 == 15)
    }

    /// The ROM's file name without its extension.
    pub fn name(&self) -> (r: String)
        requires
            file_stem(self.spec_path()) is Some,
        ensures
            Some(r@) == file_stem(self.spec_path()),
    {
        self.path.rom_name()
    }

    /// The ROM's file name without its extension, or `None` where its path has no file name.
    pub fn try_name(&self) -> (r: Option<String>)
        ensures
            r is Some <==> file_stem(self.spec_path()) is Some,
            r matches Some(name) ==> Some(name@) == file_stem(self.spec_path()),
    {
        match self.path.try_rom_name() {
            Some(_) => Some(self.name()),
            None => None,
        }
    }

    pub fn header(&self) -> (r: &CartridgeMetadata)
        ensures
            *r == self.spec_header(),
    {
        &self.header
    }

    pub fn path(&self) -> (r: &CartridgePath)
        ensures
            r.spec_path() == self.spec_path(),
    {
        &self.path
    }

    pub fn prg_rom(&self) -> (r: &[u8])
        ensures
            r@ == self.spec_prg_rom(),
    {
        self.prg_rom.as_slice()
    }

    pub fn chr_rom(&self) -> (r: &[u8])
        ensures
            r@ == self.spec_chr_rom(),
    {
        self.chr_rom.as_slice()
    }

    /// The size of the PRG ROM, which is the size that the header gives.
    pub fn prg_rom_size(&self) -> (r: u32)
        ensures
            r == self.spec_prg_rom().len(),
            Some(r) == self.spec_header().prg_rom_size,
    {
        proof {
            use_type_invariant(self);
        }
        self.prg_rom.len() as u32
    }

    /// The size of the CHR ROM, which is the size that the header gives.
    pub fn chr_rom_size(&self) -> (r: u32)
        ensures
            r == self.spec_chr_rom().len(),
            Some(r) == self.spec_header().chr_rom_size,
    {
        proof {
            use_type_invariant(self);
        }
        self.chr_rom.len() as u32
    }

    /// Reads the 16 byte header.
    fn parse(raw: &[u8]) -> (r: Result<CartridgeMetadata, CartridgeError>)
        requires
            !uses_exponent_notation(raw@),
        ensures
            r == spec_parse(raw@),
            r matches Ok(h) ==> h.prg_rom_size is Some && h.chr_rom_size is Some,
    {
        if raw.len() < 8 {
            return Err(CartridgeError::HeaderTooShort);
        }
        if !(raw[0] == 0x4E && raw[1] == 0x45 && raw[2] == 0x53 && raw[3] == 0x1A) {
            return Err(CartridgeError::NotInes);
        }
        let b6 = raw[6];
        let b7 = raw[7];
        if (b6 >> 2) & 1 == 1 {
            assert((b6 / 4) % 2 == 1) by (bit_vector)
                requires
                    (b6 >> 2) & 1 == 1,
            ;
            return Err(CartridgeError::TrainerUnsupported);
        }
        let mapper_low = b6 >> 4;
        let mirroring = (((b6 >> 3) & 1) << 1) | (b6 & 1);
        let battery = (b6 >> 1) & 1 == 1;
        let mapper_middle = b7 >> 4;
        let format = (b7 >> 2) & 0b11;
        let console = b7 & 0b11;
        assert(mapper_low == b6 / 16 && mirroring == 2 * ((b6 / 8) % 2) + b6 % 2 && battery == ((b6 / 2) % 2 == 1)
            && mapper_middle == b7 / 16 && format == (b7 / 4) % 4 && console == b7 % 4
            && (b6 / 4) % 2 != 1) by (bit_vector)
            requires
                (b6 >> 2) & 1 != 1,
                mapper_low == b6 >> 4,
                mirroring == (((b6 >> 3) & 1) << 1) | (b6 & 1),
                battery == ((b6 >> 1) & 1 == 1),
                mapper_middle == b7 >> 4,
                format == (b7 >> 2) & 0b11,
                console == b7 & 0b11,
        ;
        let mut metadata = CartridgeMetadata::empty();
        metadata.has_persistent_memory = Some(battery);
        metadata.name_table_mirroring_index = Some(mirroring);
        metadata.full_hash = Some(crc32_hash(raw));

        if format == 2 {
            if raw.len() < HEADER_LENGTH {
                return Err(CartridgeError::HeaderTooShort);
            }
            let b8 = raw[8];
            let b9 = raw[9];
            let b10 = raw[10];
            let b11 = raw[11];
            let b13 = raw[13];
            let console_type = match ConsoleType::extended(console, b13 % 16) {
                Ok(c) => c,
                Err(e) => return Err(CartridgeError::Metadata(e)),
            };
            let mapper_number = ((b8 % 16) as u16) * 256 + (mapper_middle as u16) * 16 + mapper_low as u16;
            metadata.mapper_number = Some(mapper_number);
            metadata.submapper_number = Some(b8 / 16);
            metadata.prg_rom_size = Some(((b9 % 16) as u32 * 256 + raw[4] as u32) * PRG_ROM_CHUNK_LENGTH);
            metadata.chr_rom_size = Some(((b9 / 16) as u32 * 256 + raw[5] as u32) * CHR_ROM_CHUNK_LENGTH);
            metadata.prg_save_ram_size = Some(shifted_ram_size(b10 / 16));
            metadata.prg_work_ram_size = Some(shifted_ram_size(b10 % 16));
            metadata.chr_save_ram_size = Some(shifted_ram_size(b11 / 16));
            metadata.chr_work_ram_size = Some(shifted_ram_size(b11 % 16));
            metadata.console_type = Some(console_type);
            metadata.timing_mode = Some(TimingMode::from_u8(raw[12] % 4));
            metadata.miscellaneous_rom_count = Some(raw[14] % 4);
            metadata.default_expansion_device = Some(raw[15] % 64);
            if console_type == ConsoleType::Vs {
                metadata.vs_hardware_type = Some(b13 / 16);
                metadata.vs_ppu_type = Some(b13 % 16);
            }
        } else {
            let console_type = match ConsoleType::basic(console) {
                Ok(c) => c,
                Err(e) => return Err(CartridgeError::Metadata(e)),
            };
            metadata.mapper_number = Some((mapper_middle as u16) * 16 + mapper_low as u16);
            metadata.prg_rom_size = Some(raw[4] as u32 * PRG_ROM_CHUNK_LENGTH);
            metadata.chr_rom_size = Some(raw[5] as u32 * CHR_ROM_CHUNK_LENGTH);
            metadata.console_type = Some(console_type);
        }
        Ok(metadata)
    }
}

/// A RAM size in a NES 2.0 header: zero, or 64 bytes shifted left by the value (at most 15).
fn shifted_ram_size(shift: u8) -> (r: u32)
    requires
        shift < 16,
    ensures
        r == shifted_size(shift),
{
    if shift == 0 {
        0
    } else {
        let mut size: u32 = 64;
        let mut i: u8 = 0;
        while i < shift
            invariant
                i <= shift,
                shift < 16,
                size == 64 * pow2(i as nat),
            decreases shift - i,
        {
            proof {
                lemma_pow2_monotonic((i + 1) as nat, 15);
                reveal_with_fuel(pow2, 16);
                assert(pow2(15) == 32768);
            }
            size = size * 2;
            i = i + 1;
        }
        size
    }
}

proof fn lemma_pow2_monotonic(a: nat, b: nat)
    requires
        a <= b,
    ensures
        pow2(a) <= pow2(b),
    decreases b,
{
    if a < b {
        lemma_pow2_monotonic(a, (b - 1) as nat);
    }
}

/// A vector holding bytes `start` up to `end` of the slice.
fn copy_range(bytes: &[u8], start: usize, end: usize) -> (r: Vec<u8>)
    requires
        start <= end <= bytes@.len(),
    ensures
        r@ == bytes@.subrange(start as int, end as int),
{
    let mut r: Vec<u8> = Vec::new();
    let mut i: usize = start;
    while i < end
        invariant
            start <= i <= end,
            end <= bytes@.len(),
            r@ == bytes@.subrange(start as int, i as int),
        decreases end - i,
    {
        r.push(bytes[i]);
        i = i + 1;
        proof {
            assert(bytes@.subrange(start as int, i as int) =~= bytes@.subrange(start as int, i - 1).push(bytes@[i - 1]));
        }
    }
    r
}

/// The characters before the first NUL.
fn chars_until_nul(chars: &Vec<char>) -> (r: Vec<char>)
    ensures
        r@ == until_nul(chars@),
{
    let mut r: Vec<char> = Vec::new();
    let mut i: usize = 0;
    while i < chars.len()
        invariant
            i <= chars@.len(),
            forall|j: int| 0 <= j < i ==> chars@[j] != '\0',
            r@ == chars@.subrange(0, i as int),
        decreases chars@.len() - i,
    {
        if chars[i] == '\0' {
            proof {
                lemma_until_nul_prefix(chars@, i as int);
            }
            return r;
        }
        r.push(chars[i]);
        i = i + 1;
        proof {
            assert(chars@.subrange(0, i as int) =~= chars@.subrange(0, i - 1).push(chars@[i - 1]));
        }
    }
    proof {
        lemma_until_nul_prefix(chars@, chars@.len() as int);
    }
    r
}

/// With no NUL among the first `i` characters, and a NUL at `i` or nothing after it, the
/// characters before the first NUL are exactly the first `i`.
proof fn lemma_until_nul_prefix(chars: Seq<char>, i: int)
    requires
        0 <= i <= chars.len(),
        forall|j: int| 0 <= j < i ==> chars[j] != '\0',
        i == chars.len() || chars[i] == '\0',
    ensures
        until_nul(chars) == chars.subrange(0, i),
    decreases i,
{
    if i == 0 {
        assert(chars.subrange(0, 0) =~= Seq::<char>::empty());
    } else {
        let t = chars.drop_first();
        assert forall|j: int| 0 <= j < i - 1 implies t[j] != '\0' by {
            assert(t[j] == chars[j + 1]);
        }
        lemma_until_nul_prefix(t, i - 1);
        assert(seq![chars[0]] + t.subrange(0, i - 1) =~= chars.subrange(0, i));
    }
}

/// The path of a ROM file.
pub struct CartridgePath(String);

impl CartridgePath {
    pub closed spec fn spec_path(&self) -> Seq<char> {
        self.0@
    }

    pub fn new(path: &str) -> (r: CartridgePath)
        ensures
            r.spec_path() == path@,
    {
        CartridgePath(path.to_string())
    }

    /// The file name without its extension.
    pub fn rom_name(&self) -> (r: String)
        requires
            file_stem(self.spec_path()) is Some,
        ensures
            Some(r@) == file_stem(self.spec_path()),
    {
        std_file_stem(self.0.as_str()).unwrap()
    }

    /// The file name without its extension, or `None` where the path has no file name.
    pub fn try_rom_name(&self) -> (r: Option<String>)
        ensures
            r is Some <==> file_stem(self.spec_path()) is Some,
            r matches Some(name) ==> Some(name@) == file_stem(self.spec_path()),
    {
        match std_file_stem(self.0.as_str()) {
            Some(_) => Some(self.rom_name()),
            None => None,
        }
    }

    /// The file name with its extension, or `None` where the path has no file name.
    pub fn try_rom_file_name(&self) -> (r: Option<String>)
        ensures
            r is Some <==> file_name(self.spec_path()) is Some,
            r matches Some(name) ==> Some(name@) == file_name(self.spec_path()),
    {
        match std_file_name(self.0.as_str()) {
            Some(_) => Some(self.rom_file_name()),
            None => None,
        }
    }

    /// Where the save RAM of the ROM is kept, or `None` where the path has no file name.
    pub fn try_prg_save_ram_file_path(&self) -> (r: Option<String>)
        ensures
            r is Some <==> file_stem(self.spec_path()) is Some,
            r matches Some(p) ==> p@ == path_with_extension(
                path_join("saveram"@, file_stem(self.spec_path())->Some_0),
                "prg.saveram"@,
            ),
    {
        match std_file_stem(self.0.as_str()) {
            Some(_) => Some(self.to_prg_save_ram_file_path()),
            None => None,
        }
    }

    /// The file name with its extension.
    pub fn rom_file_name(&self) -> (r: String)
        requires
            file_name(self.spec_path()) is Some,
        ensures
            Some(r@) == file_name(self.spec_path()),
    {
        std_file_name(self.0.as_str()).unwrap()
    }

    /// Where the save RAM of the ROM is kept: `saveram/<file stem>.prg.saveram`.
    pub fn to_prg_save_ram_file_path(&self) -> (r: String)
        requires
            file_stem(self.spec_path()) is Some,
        ensures
            r@ == path_with_extension(
                path_join("saveram"@, file_stem(self.spec_path())->Some_0),
                "prg.saveram"@,
            ),
    {
        let stem = std_file_stem(self.0.as_str()).unwrap();
        let joined = std_path_join("saveram", stem.as_str());
        let extension = "prg.saveram";
        proof {
            reveal_strlit("prg.saveram");
            assert(!extension@.contains('/')) by {
                assert(forall|i: int| 0 <= i < extension@.len() ==> extension@[i] != '/');
            }
            assert(!extension@.contains('\\')) by {
                assert(forall|i: int| 0 <= i < extension@.len() ==> extension@[i] != '\\');
            }
        }
        std_path_with_extension(joined.as_str(), extension)
    }
}

/// The extra ROMs of a PlayChoice-10 cartridge.
pub struct PlayChoice {
    pub inst_rom: Vec<u8>,
    pub prom_data: Vec<u8>,
    pub prom_counter_out: Vec<u8>,
}

} // verus!
