//! The raw lazy reader of Ion 1.0 binary streams.

use vstd::prelude::*;
use crate::lazy::binary::immutable_buffer::ImmutableBuffer;
use crate::lazy::binary::layout::{next_item, ItemLayout};
use crate::lazy::raw_stream_item::LazyRawStreamItem;
use crate::result::{IonError, IonResult, ParseFault};

verus! {

/// Yields the items at the top level of a binary stream, one at a time and
/// in the order of the bytes. Values come as lazy handles; nothing of a value
/// is decoded until it is asked for.
#[derive(Debug, Clone, Copy)]
pub struct LazyRawBinaryReader_1_0<'data> {
    data: ImmutableBuffer<'data>,
    // The number of bytes of `data` that the item returned last takes.
    bytes_to_skip: usize,
}

/// True when `r` is what reading the next item of `remaining` yields, for
/// input that lies `position` bytes into the stream.
pub open spec fn item_found(remaining: Seq<u8>, position: int, r: IonResult<LazyRawStreamItem<'_>>) -> bool {
    match next_item(remaining) {
        Ok(ItemLayout::VersionMarker { padding, major, minor }) => if major == 1 && minor == 0 {
            r is Ok && r->Ok_0 is VersionMarker && r->Ok_0->VersionMarker_0 == 1
                && r->Ok_0->VersionMarker_1 == 0
        } else {
            r is Err && r->Err_0 == IonError::Decoding
        },
        Ok(ItemLayout::Value(child)) => {
            &&& r is Ok
            &&& r->Ok_0 is Value
            &&& r->Ok_0->Value_0.layout() == child.value
            &&& r->Ok_0->Value_0.wf()
            &&& r->Ok_0->Value_0.encoded_value.field_id is None
            &&& r->Ok_0->Value_0.input.spec_offset() == position + child.padding
            &&& r->Ok_0->Value_0.input@ == remaining.skip(child.padding as int)
        },
        Ok(ItemLayout::EndOfStream { padding }) => r is Ok && r->Ok_0 is EndOfStream
            && r->Ok_0->EndOfStream_0 == position + padding,
        Err(ParseFault::Incomplete) => r is Err && r->Err_0 == (IonError::Incomplete {
            offset: position as usize,
        }),
        Err(ParseFault::Malformed) => r is Err && r->Err_0 == IonError::Decoding,
    }
}

/// The number of bytes that the next item of `remaining` takes, padding
/// included; zero when there is none.
pub open spec fn item_length(remaining: Seq<u8>) -> nat {
    match next_item(remaining) {
        Ok(ItemLayout::VersionMarker { padding, major, minor }) => if major == 1 && minor == 0 {
            padding + 4
        } else {
            0
        },
        Ok(ItemLayout::Value(child)) => child.consumed(),
        Ok(ItemLayout::EndOfStream { padding }) => padding,
        Err(_) => 0,
    }
}

impl<'data> LazyRawBinaryReader_1_0<'data> {
    /// The input that has not been read yet.
    pub closed spec fn spec_remaining(&self) -> Seq<u8> {
        self.data@.skip(self.bytes_to_skip as int)
    }

    /// The stream offset at which the next item starts.
    pub closed spec fn spec_position(&self) -> int {
        self.data.spec_offset() + self.bytes_to_skip
    }

    /// The item returned last lies within the input, and every stream offset
    /// is a `usize`.
    pub closed spec fn wf(&self) -> bool {
        self.data.wf() && self.bytes_to_skip <= self.data@.len()
    }

    /// A reader over `data`, which starts the stream.
    pub fn new(data: &'data [u8]) -> (reader: Self)
        ensures
            reader.wf(),
            reader.spec_remaining() == data@,
            reader.spec_position() == 0,
    {
        Self::new_with_offset(data, 0)
    }

    /// A reader over `data`, which lies `offset` bytes into the stream.
    pub fn new_with_offset(data: &'data [u8], offset: usize) -> (reader: Self)
        ensures
            reader.wf(),
            reader.spec_remaining() == data@,
            offset + data@.len() <= usize::MAX ==> reader.spec_position() == offset,
    {
        let data = ImmutableBuffer::new_with_offset(data, offset);
        assert(data@.skip(0) =~= data@);
        Self { data, bytes_to_skip: 0 }
    }

    /// Returns the stream offset at which the next item starts.
    pub fn position(&self) -> (position: usize)
        requires
            self.wf(),
        ensures
            position == self.spec_position(),
    {
        self.data.offset() + self.bytes_to_skip
    }

    /// Returns the input after the item that was returned last.
    fn advance_to_next_item(&self) -> (buffer: ImmutableBuffer<'data>)
        requires
            self.wf(),
        ensures
            buffer@ == self.spec_remaining(),
            buffer.spec_offset() == self.spec_position(),
            buffer.wf(),
    {
        if self.bytes_to_skip > 0 {
            self.data.consume(self.bytes_to_skip)
        } else {
            assert(self.data@.skip(0) =~= self.data@);
            self.data
        }
    }

    /// Yields the next item of the stream.
    ///
    /// NOP padding before the item is skipped. A version marker must name
    /// version 1.0; any other version is a decoding error. When the input ends
    /// inside the item, the error is `Incomplete` with the offset at which the
    /// reader stays, and the reader can be asked again once more input is
    /// there. After any error the reader stays where it was.
    #[verifier::rlimit(50)]
    pub fn next(&mut self) -> (r: IonResult<LazyRawStreamItem<'data>>)
        requires
            old(self).wf(),
        ensures
            final(self).wf(),
            item_found(old(self).spec_remaining(), old(self).spec_position(), r),
            r is Err ==> *final(self) == *old(self),
            r is Ok ==> final(self).spec_remaining() == old(self).spec_remaining().skip(
                item_length(old(self).spec_remaining()) as int,
            ) && final(self).spec_position() == old(self).spec_position() + item_length(
                old(self).spec_remaining(),
            ) && item_length(old(self).spec_remaining()) <= old(self).spec_remaining().len(),
            r is Ok && !(r->Ok_0 is EndOfStream) ==> item_length(old(self).spec_remaining()) >= 1,
    {
        let start = self.advance_to_next_item();
        let (_padding, buffer) = match start.consume_nop_padding() {
            Ok(skipped) => skipped,
            Err(error) => {
                return Err(Self::at_item_start(error, start.offset()));
            },
        };
        if buffer.is_empty() {
            self.data = buffer;
            self.bytes_to_skip = 0;
            assert(buffer@.skip(0) =~= start@.skip(_padding as int));
            return Ok(LazyRawStreamItem::EndOfStream(buffer.offset()));
        }
        let first = match buffer.peek_next_byte() {
            Some(byte) => byte,
            None => 0,
        };
        if first == 0xE0 {
            if buffer.len() < 4 {
                return Err(IonError::Incomplete { offset: start.offset() });
            }
            let bytes = buffer.bytes();
            if bytes[3] != 0xEA {
                return Err(IonError::Decoding);
            }
            let major = bytes[1];
            let minor = bytes[2];
            if !(major == 1 && minor == 0) {
                return Err(IonError::Decoding);
            }
            self.data = buffer;
            self.bytes_to_skip = 4;
            assert(buffer@.skip(4) =~= start@.skip(_padding + 4));
            return Ok(LazyRawStreamItem::VersionMarker(major, minor));
        }
        let lazy_value = match buffer.read_value() {
            Ok(lazy_value) => lazy_value,
            Err(error) => {
                return Err(Self::at_item_start(error, start.offset()));
            },
        };
        self.data = buffer;
        self.bytes_to_skip = lazy_value.encoded_value.total_length;
        assert(buffer@.skip(lazy_value.encoded_value.total_length as int) =~= start@.skip(
            _padding + lazy_value.encoded_value.total_length,
        ));
        Ok(LazyRawStreamItem::Value(lazy_value))
    }

    /// Moves the offset of an `Incomplete` error to the start of the item
    /// that could not be read.
    fn at_item_start(error: IonError, offset: usize) -> (moved: IonError)
        ensures
            moved == match error {
                IonError::Incomplete { .. } => IonError::Incomplete { offset },
                other => other,
            },
    {
        match error {
            IonError::Incomplete { .. } => IonError::Incomplete { offset },
            other => other,
        }
    }
}

} // verus!
