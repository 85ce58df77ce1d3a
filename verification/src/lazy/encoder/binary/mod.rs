//! The writer of the Ion 1.0 binary encoding.

pub mod arena;
pub mod container_writers;
pub mod encoding;
pub mod round_trip;
pub mod value_writer;
pub mod writer;
