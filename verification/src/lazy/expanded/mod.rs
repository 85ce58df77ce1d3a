//! What the readers know of Ion 1.1 macros.

pub mod macro_table;
