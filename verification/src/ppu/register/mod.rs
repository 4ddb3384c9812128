pub mod ppu_io_bus;
pub mod ppu_registers;
