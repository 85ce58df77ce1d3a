//! The raw lazy reader of Ion 1.1 binary streams.
//!
//! Ion 1.1 has opcodes of its own and writes lengths in the encoding whose
//! first byte tells the number of bytes. The reader recognizes the version
//! marker, NOP padding, nulls, booleans, integers and strings; every other
//! opcode is refused.

pub mod fixed_int;
pub mod reader;
pub mod value;
