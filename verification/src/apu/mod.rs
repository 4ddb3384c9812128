pub mod dmc;
pub mod envelope;
pub mod frequency_timer;
pub mod length_counter;
pub mod mixer;
pub mod noise_channel;
pub mod pulse_channel;
pub mod sweep;
pub mod triangle_channel;
