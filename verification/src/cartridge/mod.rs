pub mod cartridge;
pub mod cartridge_metadata;
pub mod game_entries;
pub mod header_db;
pub mod resolved_metadata;
