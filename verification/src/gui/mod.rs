pub mod debug_screens;
