pub mod apu;
pub mod cartridge;
pub mod cpu;
pub mod gui;
pub mod mapper;
pub mod memory;
pub mod ppu;
pub mod util;
