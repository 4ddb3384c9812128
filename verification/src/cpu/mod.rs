pub mod instruction;
