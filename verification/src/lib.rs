//! Streaming reader and writer for the Ion binary data format.
//!
//! The crate is organised leaves first: the variable-length integers of Ion
//! 1.0 and 1.1, an immutable byte buffer, the raw binary parser with its lazy
//! value handles, the symbol table, the readers of the raw and of the user
//! level, and the binary writer, which stages each container until its length
//! is known.
#![allow(non_camel_case_types)]

pub mod result;
pub mod types;
pub mod constants;
pub mod text;
pub mod binary;
pub mod ion_1_1;
pub mod symbol;
pub mod symbol_ref;
pub mod raw_symbol_token;
pub mod raw_symbol_token_ref;
pub mod symbol_table;
pub mod symbol_table_directive;
pub mod lazy;
pub mod raw_reader;
pub mod stream_reader;
pub mod reader;
pub mod value_reader;
pub mod blocking_lazy_reader;
