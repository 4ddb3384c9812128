pub mod name_table_quadrant;
