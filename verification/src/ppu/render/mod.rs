pub mod ppm;
pub mod frame;
