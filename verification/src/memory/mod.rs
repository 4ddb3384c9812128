pub mod ppu;
pub mod read_result;
pub mod regions;
pub mod register_ids;
