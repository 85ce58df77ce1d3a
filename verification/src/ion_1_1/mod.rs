//! Primitive codecs of the Ion 1.1 binary encoding.

pub mod alt;
