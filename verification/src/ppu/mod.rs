pub mod name_table;
pub mod palette;
pub mod pattern_table_side;
pub mod pixel_index;
pub mod ppu_clock;
pub mod register;
pub mod render;
pub mod sprite;
pub mod tile_number;
