//! What the raw lazy reader finds at the top level of a stream.

use vstd::prelude::*;
use crate::lazy::binary::raw::value::LazyRawBinaryValue_1_0;
use crate::result::{IonError, IonResult};

verus! {

/// An item at the top level of a binary stream.
#[derive(Debug, Clone, Copy)]
pub enum LazyRawStreamItem<'top> {
    /// An Ion version marker with its major and minor version.
    VersionMarker(u8, u8),
    /// A value. Structs that hold symbol tables are values at this level.
    Value(LazyRawBinaryValue_1_0<'top>),
    /// The end of the stream, with the stream offset at which it was found.
    EndOfStream(usize),
}

impl<'top> LazyRawStreamItem<'top> {
    /// Returns the version of a version marker; any other item is a decoding
    /// error.
    pub fn expect_ivm(self) -> (r: IonResult<(u8, u8)>)
        ensures
            match self {
                LazyRawStreamItem::VersionMarker(major, minor) => r == Ok::<(u8, u8), IonError>(
                    (major, minor),
                ),
                _ => r == Err::<(u8, u8), IonError>(IonError::Decoding),
            },
    {
        if let LazyRawStreamItem::VersionMarker(major, minor) = self {
            Ok((major, minor))
        } else {
            Err(IonError::Decoding)
        }
    }

    /// Returns the value; any other item is a decoding error.
    pub fn expect_value(self) -> (r: IonResult<LazyRawBinaryValue_1_0<'top>>)
        ensures
            match self {
                LazyRawStreamItem::Value(value) => r == Ok::<
                    LazyRawBinaryValue_1_0<'top>,
                    IonError,
                >(value),
                _ => r == Err::<LazyRawBinaryValue_1_0<'top>, IonError>(IonError::Decoding),
            },
    {
        if let LazyRawStreamItem::Value(value) = self {
            Ok(value)
        } else {
            Err(IonError::Decoding)
        }
    }
}

} // verus!
