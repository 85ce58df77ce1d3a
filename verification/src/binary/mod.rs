//! Primitive codecs of the Ion 1.0 binary encoding.

pub mod decimal;
pub mod timestamp;
pub mod type_descriptor;
pub mod uint;
pub mod var_int;
pub mod var_uint;
