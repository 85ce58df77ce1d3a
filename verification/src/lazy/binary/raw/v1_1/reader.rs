//! The raw lazy reader of Ion 1.1 binary streams.

use vstd::prelude::*;
use crate::lazy::binary::immutable_buffer::ImmutableBuffer;
use crate::lazy::binary::layout::ValueLayout;
use crate::lazy::binary::raw::v1_1::value::{
    nop_padding_1_1,
    parse_value_1_1,
    LazyRawBinaryValue_1_1,
};
use crate::result::{IonError, IonResult, ParseFault};

verus! {

/// An item at the top level of an Ion 1.1 stream.
#[derive(Debug, Clone, Copy)]
pub enum LazyRawStreamItem_1_1<'top> {
    /// An Ion version marker with its major and minor version.
    VersionMarker(u8, u8),
    /// A value.
    Value(LazyRawBinaryValue_1_1<'top>),
    /// The end of the stream, with the stream offset at which it was found.
    EndOfStream(usize),
}

impl<'top> LazyRawStreamItem_1_1<'top> {
    /// Returns the version of a version marker; any other item is a decoding
    /// error.
    pub fn expect_ivm(self) -> (r: IonResult<(u8, u8)>)
        ensures
            match self {
                LazyRawStreamItem_1_1::VersionMarker(major, minor) => r == Ok::<
                    (u8, u8),
                    IonError,
                >((major, minor)),
                _ => r == Err::<(u8, u8), IonError>(IonError::Decoding),
            },
    {
        if let LazyRawStreamItem_1_1::VersionMarker(major, minor) = self {
            Ok((major, minor))
        } else {
            Err(IonError::Decoding)
        }
    }

    /// Returns the value; any other item is a decoding error.
    pub fn expect_value(self) -> (r: IonResult<LazyRawBinaryValue_1_1<'top>>)
        ensures
            match self {
                LazyRawStreamItem_1_1::Value(value) => r == Ok::<
                    LazyRawBinaryValue_1_1<'top>,
                    IonError,
                >(value),
                _ => r == Err::<LazyRawBinaryValue_1_1<'top>, IonError>(IonError::Decoding),
            },
    {
        if let LazyRawStreamItem_1_1::Value(value) = self {
            Ok(value)
        } else {
            Err(IonError::Decoding)
        }
    }
}

/// What the reader finds at the top level of an Ion 1.1 stream.
pub enum ItemLayout_1_1 {
    VersionMarker { padding: nat, major: u8, minor: u8 },
    Value { padding: nat, value: ValueLayout },
    EndOfStream { padding: nat },
}

/// The next item of the Ion 1.1 stream `s`.
pub open spec fn next_item_1_1(s: Seq<u8>) -> Result<ItemLayout_1_1, ParseFault> {
    match nop_padding_1_1(s) {
        Err(fault) => Err(fault),
        Ok(padding) => {
            if padding >= s.len() {
                Ok(ItemLayout_1_1::EndOfStream { padding })
            } else if s[padding as int] == 0xE0 {
                if padding + 4 > s.len() {
                    Err(ParseFault::Incomplete)
                } else if s[padding as int + 3] != 0xEA {
                    Err(ParseFault::Malformed)
                } else {
                    Ok(
                        ItemLayout_1_1::VersionMarker {
                            padding,
                            major: s[padding as int + 1],
                            minor: s[padding as int + 2],
                        },
                    )
                }
            } else {
                match parse_value_1_1(s.skip(padding as int)) {
                    Err(fault) => Err(fault),
                    Ok(value) => Ok(ItemLayout_1_1::Value { padding, value }),
                }
            }
        },
    }
}

/// The number of bytes that the next item of `s` takes, padding included;
/// zero when there is none.
pub open spec fn item_length_1_1(s: Seq<u8>) -> nat {
    match next_item_1_1(s) {
        Ok(ItemLayout_1_1::VersionMarker { padding, major, minor }) => if major == 1 && minor == 1 {
            padding + 4
        } else {
            0
        },
        Ok(ItemLayout_1_1::Value { padding, value }) => padding + value.total_length(),
        Ok(ItemLayout_1_1::EndOfStream { padding }) => padding,
        Err(_) => 0,
    }
}

/// Yields the items at the top level of an Ion 1.1 binary stream.
#[derive(Debug, Clone, Copy)]
pub struct LazyRawBinaryReader_1_1<'data> {
    data: ImmutableBuffer<'data>,
    // Bytes to skip in order to advance to the next item.
    bytes_to_skip: usize,
}

impl<'data> LazyRawBinaryReader_1_1<'data> {
    /// The input that has not been read yet.
    pub closed spec fn spec_remaining(&self) -> Seq<u8> {
        self.data@.skip(self.bytes_to_skip as int)
    }

    /// The stream offset at which the next item starts.
    pub closed spec fn spec_position(&self) -> int {
        self.data.spec_offset() + self.bytes_to_skip
    }

    /// The item returned last lies within the input, and every stream offset
    /// is a `usize`.
    pub closed spec fn wf(&self) -> bool {
        self.data.wf() && self.bytes_to_skip <= self.data@.len()
    }

    /// A reader over `data`, which starts the stream.
    pub fn new(data: &'data [u8]) -> (reader: Self)
        ensures
            reader.wf(),
            reader.spec_remaining() == data@,
            reader.spec_position() == 0,
    {
        Self::new_with_offset(data, 0)
    }

    /// A reader over `data`, which lies `offset` bytes into the stream.
    pub fn new_with_offset(data: &'data [u8], offset: usize) -> (reader: Self)
        ensures
            reader.wf(),
            reader.spec_remaining() == data@,
            offset + data@.len() <= usize::MAX ==> reader.spec_position() == offset,
    {
        let data = ImmutableBuffer::new_with_offset(data, offset);
        assert(data@.skip(0) =~= data@);
        Self { data, bytes_to_skip: 0 }
    }

    /// Returns the stream offset at which the next item starts.
    pub fn position(&self) -> (position: usize)
        requires
            self.wf(),
        ensures
            position == self.spec_position(),
    {
        self.data.offset() + self.bytes_to_skip
    }

    /// Reads the version marker at the front of `buffer`, which starts with
    /// `0xE0`. The marker must name version 1.1.
    fn read_ivm(&mut self, buffer: ImmutableBuffer<'data>) -> (r: IonResult<
        LazyRawStreamItem_1_1<'data>,
    >)
        requires
            buffer.wf(),
            buffer@.len() > 0,
        ensures
            if buffer@.len() < 4 {
                r is Err && buffer.fails_with(r->Err_0, ParseFault::Incomplete) && *final(self) == *old(self)
            } else if buffer@[3] != 0xEA || !(buffer@[1] == 1 && buffer@[2] == 1) {
                r is Err && r->Err_0 == IonError::Decoding && *final(self) == *old(self)
            } else {
                &&& r is Ok
                &&& r->Ok_0 is VersionMarker
                &&& r->Ok_0->VersionMarker_0 == 1
                &&& r->Ok_0->VersionMarker_1 == 1
                &&& final(self).wf()
                &&& final(self).spec_remaining() == buffer@.skip(4)
                &&& final(self).spec_position() == buffer.spec_offset() + 4
            },
    {
        if buffer.len() < 4 {
            return Err(IonError::Incomplete { offset: buffer.offset() });
        }
        let bytes = buffer.bytes();
        if bytes[3] != 0xEA {
            return Err(IonError::Decoding);
        }
        let (major, minor) = (bytes[1], bytes[2]);
        if !(major == 1 && minor == 1) {
            // Only version 1.1 is read by this reader.
            return Err(IonError::Decoding);
        }
        self.data = buffer;
        self.bytes_to_skip = 4;
        Ok(LazyRawStreamItem_1_1::VersionMarker(major, minor))
    }

    /// Reads the value at the front of `buffer`.
    fn read_value(&mut self, buffer: ImmutableBuffer<'data>) -> (r: IonResult<
        LazyRawStreamItem_1_1<'data>,
    >)
        requires
            buffer.wf(),
        ensures
            match parse_value_1_1(buffer@) {
                Ok(layout) => {
                    &&& r is Ok
                    &&& r->Ok_0 is Value
                    &&& r->Ok_0->Value_0.layout() == layout
                    &&& r->Ok_0->Value_0.wf()
                    &&& r->Ok_0->Value_0.input == buffer
                    &&& final(self).wf()
                    &&& final(self).spec_remaining() == buffer@.skip(layout.total_length() as int)
                    &&& final(self).spec_position() == buffer.spec_offset() + layout.total_length()
                },
                Err(ParseFault::Incomplete) => r is Err && buffer.fails_with(
                    r->Err_0,
                    ParseFault::Incomplete,
                ) && *final(self) == *old(self),
                Err(ParseFault::Malformed) => r is Err && r->Err_0 == IonError::Decoding
                    && *final(self) == *old(self),
            },
    {
        let lazy_value = buffer.read_value_1_1()?;
        self.data = buffer;
        self.bytes_to_skip = lazy_value.encoded_value.total_length;
        Ok(LazyRawStreamItem_1_1::Value(lazy_value))
    }

    /// Returns the input after the item that was returned last.
    fn advance_to_next_item(&self) -> (buffer: ImmutableBuffer<'data>)
        requires
            self.wf(),
        ensures
            buffer@ == self.spec_remaining(),
            buffer.spec_offset() == self.spec_position(),
            buffer.wf(),
    {
        if self.bytes_to_skip > 0 {
            self.data.consume(self.bytes_to_skip)
        } else {
            assert(self.data@.skip(0) =~= self.data@);
            self.data
        }
    }

    /// Yields the next item of the stream.
    ///
    /// NOP padding before the item is skipped. A version marker must name
    /// version 1.1. After an error the reader stays where it was.
    #[verifier::rlimit(50)]
    pub fn next(&mut self) -> (r: IonResult<LazyRawStreamItem_1_1<'data>>)
        requires
            old(self).wf(),
        ensures
            final(self).wf(),
            match next_item_1_1(old(self).spec_remaining()) {
                Ok(ItemLayout_1_1::VersionMarker { padding, major, minor }) => if major == 1
                    && minor == 1 {
                    r is Ok && r->Ok_0 is VersionMarker && r->Ok_0->VersionMarker_0 == 1
                        && r->Ok_0->VersionMarker_1 == 1
                } else {
                    r is Err && r->Err_0 == IonError::Decoding
                },
                Ok(ItemLayout_1_1::Value { padding, value }) => {
                    &&& r is Ok
                    &&& r->Ok_0 is Value
                    &&& r->Ok_0->Value_0.layout() == value
                    &&& r->Ok_0->Value_0.wf()
                    &&& r->Ok_0->Value_0.input@ == old(self).spec_remaining().skip(padding as int)
                    &&& r->Ok_0->Value_0.input.spec_offset() == old(self).spec_position() + padding
                },
                Ok(ItemLayout_1_1::EndOfStream { padding }) => r is Ok && r->Ok_0 is EndOfStream
                    && r->Ok_0->EndOfStream_0 == old(self).spec_position() + padding,
                Err(ParseFault::Incomplete) => r is Err && r->Err_0 == (IonError::Incomplete {
                    offset: old(self).spec_position() as usize,
                }),
                Err(ParseFault::Malformed) => r is Err && r->Err_0 == IonError::Decoding,
            },
            r is Err ==> *final(self) == *old(self),
            r is Ok ==> final(self).spec_remaining() == old(self).spec_remaining().skip(
                item_length_1_1(old(self).spec_remaining()) as int,
            ) && final(self).spec_position() == old(self).spec_position() + item_length_1_1(
                old(self).spec_remaining(),
            ),
    {
        let start = self.advance_to_next_item();
        let (padding, buffer) = match start.consume_nop_padding_1_1() {
            Ok(skipped) => skipped,
            Err(error) => {
                return Err(Self::at_item_start(error, start.offset()));
            },
        };
        if buffer.is_empty() {
            self.data = buffer;
            self.bytes_to_skip = 0;
            assert(buffer@.skip(0) =~= start@.skip(padding as int));
            return Ok(LazyRawStreamItem_1_1::EndOfStream(buffer.offset()));
        }
        let first = buffer.bytes()[0];
        if first == 0xE0 {
            let result = self.read_ivm(buffer);
            proof {
                if result is Ok {
                    assert(buffer@.skip(4) =~= start@.skip(padding + 4));
                }
            }
            return match result {
                Ok(item) => Ok(item),
                Err(error) => Err(Self::at_item_start(error, start.offset())),
            };
        }
        let result = self.read_value(buffer);
        proof {
            if result is Ok {
                let layout = parse_value_1_1(buffer@)->Ok_0;
                assert(buffer@.skip(layout.total_length() as int) =~= start@.skip(
                    padding + layout.total_length(),
                ));
            }
        }
        match result {
            Ok(item) => Ok(item),
            Err(error) => Err(Self::at_item_start(error, start.offset())),
        }
    }

    /// Moves the offset of an `Incomplete` error to the start of the item
    /// that could not be read.
    fn at_item_start(error: IonError, offset: usize) -> (moved: IonError)
        ensures
            moved == match error {
                IonError::Incomplete { .. } => IonError::Incomplete { offset },
                other => other,
            },
    {
        match error {
            IonError::Incomplete { .. } => IonError::Incomplete { offset },
            other => other,
        }
    }
}

} // verus!
