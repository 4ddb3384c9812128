pub mod circular_buffer;
pub mod text;
