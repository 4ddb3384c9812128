pub mod mmc1;
pub mod vrc;
