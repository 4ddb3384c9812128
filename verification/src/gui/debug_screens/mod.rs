pub mod oam;
pub mod sprite;
