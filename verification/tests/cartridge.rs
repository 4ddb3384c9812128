use reznez::cartridge::cartridge::{Cartridge, CartridgeError, CartridgePath};
use reznez::cartridge::cartridge_metadata::{CartridgeMetadata, CartridgeMetadataError, ConsoleType, TimingMode};
use reznez::cartridge::game_entries::{read_games, HeaderDbError};
use reznez::cartridge::header_db::{resolve_db_metadata, HeaderDb};

fn ines_rom(flags6: u8, flags7: u8, prg_chunks: u8, chr_chunks: u8, trailer: &[u8]) -> Vec<u8> {
    let mut raw = vec![b'N', b'E', b'S', 0x1A, prg_chunks, chr_chunks, flags6, flags7, 0, 0, 0, 0, 0, 0, 0, 0];
    for i in 0..(16384 * prg_chunks as usize) {
        raw.push((i % 251) as u8);
    }
    for i in 0..(8192 * chr_chunks as usize) {
        raw.push((i % 7) as u8);
    }
    raw.extend_from_slice(trailer);
    raw
}

#[test]
fn loads_an_ines_rom() {
    let raw = ines_rom(0x11, 0x20, 1, 1, &[]);
    let cartridge = Cartridge::load("roms/game.nes", &raw).unwrap();
    let header = cartridge.header();
    assert_eq!(header.mapper_number, Some(0x21));
    assert_eq!(header.submapper_number, None);
    assert_eq!(header.name_table_mirroring_index, Some(1));
    assert_eq!(header.has_persistent_memory, Some(false));
    assert_eq!(header.console_type, Some(ConsoleType::NesFamiconDendy));
    assert_eq!(header.prg_rom_size, Some(16384));
    assert_eq!(header.chr_rom_size, Some(8192));
    assert_eq!(cartridge.prg_rom_size(), 16384);
    assert_eq!(cartridge.chr_rom_size(), 8192);
    assert_eq!(cartridge.prg_rom().len() as u32, cartridge.prg_rom_size());
    assert_eq!(cartridge.header().prg_rom_size, Some(cartridge.prg_rom_size()));
    assert_eq!(cartridge.chr_rom().len() as u32, cartridge.chr_rom_size());
    assert_eq!(cartridge.header().chr_rom_size, Some(cartridge.chr_rom_size()));
    assert_eq!(cartridge.prg_rom(), &raw[16..16 + 16384]);
    assert_eq!(cartridge.chr_rom(), &raw[16 + 16384..]);
}

#[test]
fn load_records_checksums() {
    let raw = ines_rom(0x00, 0x00, 1, 1, &[]);
    let cartridge = Cartridge::load("game.nes", &raw).unwrap();
    let header = cartridge.header();
    assert_eq!(header.full_hash, Some(crc32fast::hash(&raw)));
    assert_eq!(header.prg_rom_hash, Some(crc32fast::hash(&raw[16..16 + 16384])));
    assert_eq!(header.chr_rom_hash, Some(crc32fast::hash(&raw[16 + 16384..])));
    assert_ne!(header.prg_rom_hash, header.chr_rom_hash);
}

#[test]
fn crc32_of_known_bytes() {
    // The header of a ROM with no PRG or CHR ROM is the whole file.
    let raw = vec![b'N', b'E', b'S', 0x1A, 0, 0, 0, 0, 0, 0, 0, 0, 0, 0, 0, 0];
    let cartridge = Cartridge::load("empty.nes", &raw).unwrap();
    assert_eq!(cartridge.header().full_hash, Some(crc32fast::hash(&raw)));
    assert_eq!(cartridge.header().prg_rom_hash, Some(0));
    assert_eq!(crc32fast::hash(b"123456789"), 0xCBF43926);
}

#[test]
fn battery_and_mirroring_bits() {
    let raw = ines_rom(0x0A, 0x00, 1, 0, &[]);
    let header = *Cartridge::load("game.nes", &raw).unwrap().header();
    assert_eq!(header.has_persistent_memory, Some(true));
    assert_eq!(header.name_table_mirroring_index, Some(2));
}

#[test]
fn loads_a_nes2_header() {
    let mut raw = vec![b'N', b'E', b'S', 0x1A, 2, 1, 0x41, 0x59, 0x21, 0x00, 0x70, 0x07, 0x01, 0x23, 0x02, 0x05];
    raw.extend(std::iter::repeat(0u8).take(2 * 16384 + 8192));
    let header = *Cartridge::load("vs.nes", &raw).unwrap().header();
    assert_eq!(header.mapper_number, Some(0x154));
    assert_eq!(header.submapper_number, Some(2));
    assert_eq!(header.prg_rom_size, Some(2 * 16384));
    assert_eq!(header.chr_rom_size, Some(8192));
    assert_eq!(header.prg_save_ram_size, Some(64 << 7));
    assert_eq!(header.prg_work_ram_size, Some(0));
    assert_eq!(header.chr_save_ram_size, Some(0));
    assert_eq!(header.chr_work_ram_size, Some(64 << 7));
    assert_eq!(header.console_type, Some(ConsoleType::Vs));
    assert_eq!(header.timing_mode, Some(TimingMode::Pal));
    assert_eq!(header.vs_hardware_type, Some(2));
    assert_eq!(header.vs_ppu_type, Some(3));
    assert_eq!(header.miscellaneous_rom_count, Some(2));
    assert_eq!(header.default_expansion_device, Some(5));
}

#[test]
fn refuses_short_headers() {
    assert_eq!(Cartridge::load("x.nes", b"NES\x1A").err(), Some(CartridgeError::HeaderTooShort));
    let nes2_without_high_header = vec![b'N', b'E', b'S', 0x1A, 0, 0, 0, 0x08];
    assert_eq!(Cartridge::load("x.nes", &nes2_without_high_header).err(), Some(CartridgeError::HeaderTooShort));
}

#[test]
fn refuses_files_that_are_not_ines() {
    let mut raw = ines_rom(0, 0, 1, 0, &[]);
    raw[3] = 0x1B;
    assert_eq!(Cartridge::load("x.nes", &raw).err(), Some(CartridgeError::NotInes));
}

#[test]
fn refuses_trainers() {
    let raw = ines_rom(0x04, 0, 1, 0, &[]);
    assert_eq!(Cartridge::load("x.nes", &raw).err(), Some(CartridgeError::TrainerUnsupported));
}

#[test]
fn refuses_extended_console_type_in_ines() {
    let raw = ines_rom(0, 0x03, 1, 0, &[]);
    assert_eq!(
        Cartridge::load("x.nes", &raw).err(),
        Some(CartridgeError::Metadata(CartridgeMetadataError::ExtendedConsoleTypeWithoutNes2)),
    );
}

#[test]
fn refuses_truncated_roms() {
    let mut raw = ines_rom(0, 0, 1, 0, &[]);
    raw[4] = 2;
    assert_eq!(Cartridge::load("x.nes", &raw).err(), Some(CartridgeError::PrgRomTooShort { claimed_kib: 32 }));
    let mut raw = ines_rom(0, 0, 1, 0, &[]);
    raw[5] = 1;
    assert_eq!(Cartridge::load("x.nes", &raw).err(), Some(CartridgeError::ChrRomTooShort { claimed_kib: 8, actual_kib: 0 }));
    raw.extend_from_slice(&[0; 3000]);
    assert_eq!(Cartridge::load("x.nes", &raw).err(), Some(CartridgeError::ChrRomTooShort { claimed_kib: 8, actual_kib: 2 }));
}

#[test]
fn title_must_be_empty_or_127_or_128_bytes() {
    let raw = ines_rom(0, 0, 1, 0, &[1, 2, 3, 4, 5]);
    assert_eq!(Cartridge::load("x.nes", &raw).err(), Some(CartridgeError::BadTitleLength { length: 5 }));
    let raw = ines_rom(0, 0, 1, 0, &[0xFF; 127]);
    assert_eq!(Cartridge::load("x.nes", &raw).err(), Some(CartridgeError::TitleNotUtf8));
    let mut title = b"My Game".to_vec();
    title.resize(128, 0);
    let raw = ines_rom(0, 0, 1, 0, &title);
    assert!(Cartridge::load("x.nes", &raw).is_ok());
}

#[test]
fn names_from_the_path() {
    let raw = ines_rom(0, 0, 1, 0, &[]);
    let cartridge = Cartridge::load("roms/Super Game.nes", &raw).unwrap();
    assert_eq!(cartridge.try_name(), Some("Super Game".to_string()));
    assert_eq!(cartridge.name(), "Super Game");
    let path = cartridge.path();
    assert_eq!(path.rom_name(), "Super Game");
    assert_eq!(path.rom_file_name(), "Super Game.nes");
    assert_eq!(path.try_rom_file_name(), Some("Super Game.nes".to_string()));
    assert_eq!(path.to_prg_save_ram_file_path(), "saveram/Super Game.prg.saveram");
    assert_eq!(path.try_prg_save_ram_file_path(), Some("saveram/Super Game.prg.saveram".to_string()));
}

#[test]
fn paths_without_file_names() {
    let path = CartridgePath::new("roms/..");
    assert_eq!(path.try_rom_name(), None);
    assert_eq!(path.try_rom_file_name(), None);
    assert_eq!(path.try_prg_save_ram_file_path(), None);
}

fn game_xml(full_hash: u32, prg_hash: u32, mapper: u16) -> String {
    format!(
        "<game><prgrom size=\"32768\" crc32=\"{prg_hash:08X}\"/><rom size=\"32784\" crc32=\"{full_hash:08X}\"/>\
         <pcb mapper=\"{mapper}\" submapper=\"0\" mirroring=\"V\" battery=\"0\"/>\
         <console type=\"0\" region=\"0\"/><expansion type=\"1\"/></game>"
    )
}

fn database(games: &[String]) -> String {
    format!("<nes20db>{}</nes20db>", games.concat())
}

#[test]
fn header_db_prefers_the_full_hash() {
    let db = HeaderDb::load(&database(&[game_xml(1, 2, 4), game_xml(3, 4, 5)])).unwrap();
    assert_eq!(db.header_from_db(1, 4, 0, None).unwrap().mapper_number, Some(4));
    assert_eq!(db.header_from_db(9, 4, 0, None).unwrap().mapper_number, Some(5));
    assert_eq!(db.header_from_db(9, 9, 0, Some(1)), None);
}

#[test]
fn header_db_later_games_win() {
    let db = HeaderDb::load(&database(&[game_xml(1, 2, 4), game_xml(1, 7, 6)])).unwrap();
    assert_eq!(db.header_from_db(1, 0, 0, None).unwrap().mapper_number, Some(6));
    assert_eq!(db.header_from_db(0, 2, 0, None).unwrap().mapper_number, Some(4));
}

#[test]
fn header_db_refuses_a_rom_in_both_tables() {
    let in_extension = database(&[game_xml(0x672D3D63, 9, 3)]);
    assert_eq!(HeaderDb::load(&in_extension).err(), Some(HeaderDbError::InDbAndExtension));
    let by_prg = database(&[game_xml(9, 0xD87AD61E, 3)]);
    assert_eq!(HeaderDb::load(&by_prg).err(), Some(HeaderDbError::InDbAndExtension));
}

#[test]
fn header_db_refuses_bad_xml() {
    assert_eq!(HeaderDb::load("<nes20db><game>").err(), Some(HeaderDbError::NotXml));
    let missing_mapper = "<nes20db><game><prgrom size=\"1\" crc32=\"1\"/><rom crc32=\"2\"/></game></nes20db>";
    assert_eq!(HeaderDb::load(missing_mapper).err(), Some(HeaderDbError::BadGame { index: 0 }));
}

#[test]
fn reads_every_entry_of_a_game() {
    let text = "<nes20db><game>\
        <prgrom size=\"131072\" crc32=\"A1B2C3D4\"/>\
        <chrrom size=\"65536\" crc32=\"0badf00d\"/>\
        <prgram size=\"8192\"/>\
        <miscrom number=\"2\"/>\
        <vs hardware=\"3\" ppu=\"4\"/>\
        <rom size=\"196624\" crc32=\"12345678\"/>\
        <pcb mapper=\"4\" submapper=\"1\" mirroring=\"H\" battery=\"1\"/>\
        <console type=\"1\" region=\"1\"/>\
        <expansion type=\"7\"/>\
        </game></nes20db>";
    let games = read_games(text).unwrap();
    assert_eq!(games.len(), 1);
    let g = games[0];
    assert_eq!(g.full_hash, Some(0x12345678));
    assert_eq!(g.prg_rom_hash, Some(0xA1B2C3D4));
    assert_eq!(g.chr_rom_hash, Some(0x0BADF00D));
    assert_eq!(g.mapper_number, Some(4));
    assert_eq!(g.submapper_number, Some(1));
    assert_eq!(g.has_persistent_memory, Some(true));
    assert_eq!(g.prg_rom_size, Some(131072));
    assert_eq!(g.prg_work_ram_size, Some(8192));
    assert_eq!(g.prg_save_ram_size, Some(0));
    assert_eq!(g.chr_rom_size, Some(65536));
    assert_eq!(g.chr_work_ram_size, Some(0));
    assert_eq!(g.console_type, Some(ConsoleType::Vs));
    assert_eq!(g.timing_mode, Some(TimingMode::Pal));
    assert_eq!(g.default_expansion_device, Some(7));
    assert_eq!(g.miscellaneous_rom_count, Some(2));
    assert_eq!(g.vs_hardware_type, Some(3));
    assert_eq!(g.vs_ppu_type, Some(4));
    assert_eq!(g.name_table_mirroring_code, Some('H'));
}

#[test]
fn reads_games_in_order_and_counts_bad_ones() {
    let text = database(&[game_xml(1, 2, 0), game_xml(3, 4, 66)]);
    let games = read_games(&text).unwrap();
    assert_eq!(games.iter().map(|g| g.mapper_number).collect::<Vec<_>>(), vec![Some(0), Some(66)]);
    let bad_hash = database(&[game_xml(1, 2, 0), game_xml(3, 4, 1).replace("00000003", "xyz")]);
    assert_eq!(read_games(&bad_hash).err(), Some(HeaderDbError::BadGame { index: 1 }));
    assert_eq!(read_games("<nes20db/>").unwrap().len(), 0);
}

#[test]
fn header_db_submapper_tables() {
    let db = HeaderDb::load("<nes20db/>").unwrap();
    assert_eq!(db.override_submapper_number(0x271C9FDD, 0), Some((4, 99, 0x271C9FDD, 0)));
    assert_eq!(db.override_submapper_number(0, 0x630BE870), Some((4, 99, 0, 0x630BE870)));
    assert_eq!(db.override_submapper_number(1, 1), None);
    assert_eq!(db.missing_submapper_number(0x672D3D63, 5), Some((3, 1, 0x672D3D63, 5)));
    assert_eq!(db.missing_submapper_number(0, 0xD87AD61E), Some((3, 2, 0, 0xD87AD61E)));
    assert_eq!(db.missing_submapper_number(0xB4054B51, 0), Some((16, 4, 0xB4054B51, 0)));
}

fn rom_header(full_hash: u32, prg_hash: u32, mapper: u16, prg_rom_size: u32) -> CartridgeMetadata {
    let mut header = CartridgeMetadata::empty();
    header.full_hash = Some(full_hash);
    header.prg_rom_hash = Some(prg_hash);
    header.mapper_number = Some(mapper);
    header.prg_rom_size = Some(prg_rom_size);
    header
}

#[test]
fn resolves_database_metadata() {
    let db = HeaderDb::load(&database(&[game_xml(1, 2, 4)])).unwrap();
    let (found, overrides, extension) = resolve_db_metadata(&db, &rom_header(1, 2, 4, 32768)).unwrap();
    assert_eq!(found.unwrap().mapper_number, Some(4));
    assert_eq!(overrides, CartridgeMetadata::empty());
    assert_eq!(extension, CartridgeMetadata::empty());
    let (found, _, _) = resolve_db_metadata(&db, &rom_header(9, 9, 4, 16384)).unwrap();
    assert_eq!(found, None);
    assert_eq!(resolve_db_metadata(&db, &rom_header(1, 2, 4, 16384)).err(), Some(HeaderDbError::PrgRomSizeMismatch));
}

#[test]
fn submapper_tables_apply_only_to_their_mapper() {
    let db = HeaderDb::load("<nes20db/>").unwrap();
    let (_, overrides, extension) = resolve_db_metadata(&db, &rom_header(0x271C9FDD, 5, 4, 16384)).unwrap();
    let mut expected = CartridgeMetadata::empty();
    expected.mapper_number = Some(4);
    expected.submapper_number = Some(99);
    expected.full_hash = Some(0x271C9FDD);
    expected.prg_rom_hash = Some(5);
    assert_eq!(overrides, expected);
    assert_eq!(extension, CartridgeMetadata::empty());
    let (_, overrides, _) = resolve_db_metadata(&db, &rom_header(0x271C9FDD, 5, 1, 16384)).unwrap();
    assert_eq!(overrides, CartridgeMetadata::empty());
    let (_, overrides, extension) = resolve_db_metadata(&db, &rom_header(7, 0xD87AD61E, 3, 16384)).unwrap();
    assert_eq!(overrides, CartridgeMetadata::empty());
    assert_eq!(extension.submapper_number, Some(2));
    assert_eq!(extension.prg_rom_hash, Some(0xD87AD61E));
}

#[test]
fn detects_exponent_notation() {
    let mut raw = ines_rom(0, 0x08, 1, 1, &[]);
    assert!(!Cartridge::header_uses_exponent_notation(&raw));
    raw[9] = 0xF0;
    assert!(Cartridge::header_uses_exponent_notation(&raw));
    raw[0] = b'X';
    assert!(!Cartridge::header_uses_exponent_notation(&raw));
    raw[0] = b'N';
    raw[6] = 0x04;
    assert!(!Cartridge::header_uses_exponent_notation(&raw));
}
