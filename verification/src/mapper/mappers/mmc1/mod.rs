pub mod board;
