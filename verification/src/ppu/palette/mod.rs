pub mod color;
pub mod color_t;
pub mod ntsc_float_decoder;
pub mod palette_table_index;
pub mod rgb;
pub mod system_palette;
pub mod system_palette_decoder;
