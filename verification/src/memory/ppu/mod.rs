pub mod chr_memory;
pub mod ppu_address;
