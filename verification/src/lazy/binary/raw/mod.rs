//! The raw level of the binary reader: values as they lie in the stream, with
//! symbols left as IDs.

pub mod annotations_iterator;
pub mod reader;
pub mod sequence;
pub mod structure;
pub mod v1_1;
pub mod value;
