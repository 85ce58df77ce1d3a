//! The lazy reader of the Ion binary encoding.

pub mod encoded_value;
pub mod immutable_buffer;
pub mod layout;
pub mod raw;
