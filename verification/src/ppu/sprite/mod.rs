pub mod oam;
pub mod oam_address;
pub mod sprite_attributes;
pub mod sprite_height;
pub mod sprite_y;
