pub mod mappers;
