//! The writers.

pub mod application_writer;
pub mod binary;
pub mod symbol_table_round_trip;
