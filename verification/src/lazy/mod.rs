//! The lazy readers and the writers built on them.

pub mod binary;
pub mod decoder;
pub mod encoder;
pub mod expanded;
pub mod raw_stream_item;
pub mod raw_value_ref;
