pub mod ciram;
