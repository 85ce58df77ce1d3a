//! A reader that takes its input piece by piece.
//!
//! The lazy reader works on input that is in memory, and reports
//! `Incomplete` when an item is cut short. This adapter keeps a buffer, asks
//! its source for more bytes whenever that happens, and tries again.

use vstd::prelude::*;
use crate::lazy::binary::layout::{next_item, ItemLayout};
use crate::lazy::binary::raw::reader::{item_found, item_length, LazyRawBinaryReader_1_0};
use crate::lazy::encoder::binary::encoding::write_bytes;
use crate::lazy::raw_stream_item::LazyRawStreamItem;
use crate::result::{IonError, IonResult, ParseFault};

verus! {

/// The number of bytes that a reader asks its source for at first, unless
/// told otherwise.
pub const READER_DEFAULT_BUFFER_CAPACITY: usize = 1024 * 4;

/// The size of the read that follows a read of `read_size` bytes that was
/// not enough: twice as much, and at most ten times `expected_read_size`, so
/// that reaching a parsable point never takes an order of magnitude more
/// memory than the caller chose.
pub open spec fn spec_next_read_size(read_size: usize, expected_read_size: usize) -> int {
    vstd::math::min(
        vstd::math::min(read_size * 2, expected_read_size * 10),
        usize::MAX as int,
    )
}

/// Returns the size of the read that follows a read of `read_size` bytes
/// that was not enough.
pub fn next_read_size(read_size: usize, expected_read_size: usize) -> (next: usize)
    ensures
        next == spec_next_read_size(read_size, expected_read_size),
{
    let doubled = if read_size > usize::MAX / 2 {
        usize::MAX
    } else {
        read_size * 2
    };
    let cap = if expected_read_size > usize::MAX / 10 {
        usize::MAX
    } else {
        expected_read_size * 10
    };
    if doubled < cap {
        doubled
    } else {
        cap
    }
}

/// What to do after an attempt to read an item.
#[derive(Debug, Clone, Copy, PartialEq, Eq, Structural)]
pub enum ReadStep {
    /// Hand the result of the attempt to the caller.
    Surface,
    /// Ask the source for up to this many bytes, and try again.
    ReadMore(usize),
}

/// Decides what to do after an attempt to read an item: `cut_short` says
/// that the item was cut short, `at_end` that the buffered input had ended,
/// and `source_exhausted` that the source has no more bytes to give.
///
/// An item that was cut short, and the end of the buffered input, call for a
/// read of `read_size` bytes as long as the source has some. Anything else is
/// handed to the caller.
pub fn after_attempt(
    cut_short: bool,
    at_end: bool,
    source_exhausted: bool,
    read_size: usize,
) -> (step: ReadStep)
    ensures
        step == if (cut_short || at_end) && !source_exhausted {
            ReadStep::ReadMore(read_size)
        } else {
            ReadStep::Surface
        },
{
    if (cut_short || at_end) && !source_exhausted {
        ReadStep::ReadMore(read_size)
    } else {
        ReadStep::Surface
    }
}

/// True when the item at `offset` in `buffer` is cut short, or the buffer
/// ends there: more bytes are called for, if the source has any.
pub open spec fn calls_for_more(buffer: Seq<u8>, offset: int) -> bool {
    match next_item(buffer.skip(offset)) {
        Err(ParseFault::Incomplete) => true,
        Ok(ItemLayout::EndOfStream { .. }) => true,
        _ => false,
    }
}

/// A read size that moves on: one byte where `read_size` is none.
pub open spec fn at_least_one(read_size: int) -> usize {
    if read_size <= 0 {
        1
    } else {
        read_size as usize
    }
}

/// The buffer that reading reaches from `buffer`, with `source` still to
/// come. While the item at `offset` calls for more and the source has bytes
/// left, a read moves up to `read_size` bytes to the buffer, and the next
/// read is of `spec_next_read_size` bytes. Reading stops at the first
/// buffer whose item at `offset` does not call for more, or when the source
/// is exhausted.
pub open spec fn buffer_reached(
    buffer: Seq<u8>,
    source: Seq<u8>,
    offset: int,
    read_size: usize,
    expected_read_size: usize,
) -> Seq<u8>
    decreases source.len(),
{
    if source.len() > 0 && read_size >= 1 && calls_for_more(buffer, offset) {
        let taken = vstd::math::min(read_size as int, source.len() as int);
        buffer_reached(
            buffer + source.take(taken),
            source.skip(taken),
            offset,
            at_least_one(spec_next_read_size(read_size, expected_read_size)),
            expected_read_size,
        )
    } else {
        buffer
    }
}

/// Wraps the lazy reader, which never waits for input, and a source of
/// bytes, and yields the items of the source's stream.
#[derive(Debug)]
pub struct BlockingLazyRawReader<'data> {
    source: &'data [u8],
    buffer: Vec<u8>,
    expected_read_size: usize,
    offset: usize,
    stream_complete: bool,
}

impl<'data> BlockingLazyRawReader<'data> {
    /// The bytes that the source has not given yet.
    pub closed spec fn spec_source(&self) -> Seq<u8> {
        self.source@
    }

    /// The bytes that the source has given.
    pub closed spec fn spec_buffer(&self) -> Seq<u8> {
        self.buffer@
    }

    /// The number of bytes of the buffer that the items yielded so far
    /// take.
    pub closed spec fn spec_offset(&self) -> int {
        self.offset as int
    }

    /// The size of the first read after an item was cut short.
    pub closed spec fn spec_expected_read_size(&self) -> usize {
        self.expected_read_size
    }

    /// The whole stream: what the source has given and what it will give.
    pub open spec fn spec_stream(&self) -> Seq<u8> {
        self.spec_buffer() + self.spec_source()
    }

    /// The items yielded so far lie in the buffer.
    pub open spec fn wf(&self) -> bool {
        0 <= self.spec_offset() <= self.spec_buffer().len()
    }

    /// Moves up to `length` bytes from the source to the buffer and returns
    /// the number of bytes moved: `length`, or all that the source has left.
    pub fn read_source(&mut self, length: usize) -> (r: IonResult<usize>)
        ensures
            r is Ok,
            r->Ok_0 == vstd::math::min(length as int, old(self).spec_source().len() as int),
            final(self).spec_buffer() == old(self).spec_buffer() + old(self).spec_source().take(
                r->Ok_0 as int,
            ),
            final(self).spec_source() == old(self).spec_source().skip(r->Ok_0 as int),
            final(self).spec_stream() == old(self).spec_stream(),
            final(self).spec_offset() == old(self).spec_offset(),
            final(self).spec_expected_read_size() == old(self).spec_expected_read_size(),
            final(self).spec_stream_complete() == old(self).spec_stream_complete(),
    {
        let available = self.source.len();
        let bytes_read = if length < available {
            length
        } else {
            available
        };
        let (taken, rest) = self.source.split_at(bytes_read);
        write_bytes(&mut self.buffer, taken);
        self.source = rest;
        assert(self.spec_stream() =~= old(self).spec_stream());
        Ok(bytes_read)
    }

    /// A reader over `input` that reads 4096 bytes at first.
    pub fn new(input: &'data [u8]) -> (r: IonResult<Self>)
        ensures
            r is Ok,
            r->Ok_0.wf(),
            r->Ok_0.spec_stream() == input@,
            r->Ok_0.spec_offset() == 0,
            r->Ok_0.spec_expected_read_size() == READER_DEFAULT_BUFFER_CAPACITY,
            !r->Ok_0.spec_stream_complete(),
    {
        Self::new_with_size(input, READER_DEFAULT_BUFFER_CAPACITY)
    }

    /// A reader over `source` that reads `size` bytes at first, and in every
    /// first read after an item was cut short.
    pub fn new_with_size(source: &'data [u8], size: usize) -> (r: IonResult<Self>)
        ensures
            r is Ok,
            r->Ok_0.wf(),
            r->Ok_0.spec_stream() == source@,
            r->Ok_0.spec_offset() == 0,
            r->Ok_0.spec_expected_read_size() == size,
            r->Ok_0.spec_buffer() == source@.take(
                vstd::math::min(size as int, source@.len() as int),
            ),
            !r->Ok_0.spec_stream_complete(),
    {
        let mut reader = Self {
            source,
            buffer: Vec::new(),
            expected_read_size: size,
            offset: 0,
            stream_complete: false,
        };
        assert(reader.spec_stream() =~= source@);
        let _ = reader.read_source(size);
        assert(reader.spec_buffer() =~= source@.take(
            vstd::math::min(size as int, source@.len() as int),
        ));
        Ok(reader)
    }

    /// Reports whether the source has given all its bytes.
    pub fn is_source_exhausted(&self) -> (b: bool)
        ensures
            b == (self.spec_source().len() == 0),
    {
        self.source.len() == 0
    }

    /// Tries to read the item at the offset from what is buffered, and
    /// decides what to do next.
    fn attempt(&self, read_size: usize) -> (step: ReadStep)
        requires
            self.wf(),
        ensures
            step == if self.spec_source().len() > 0 && calls_for_more(
                self.spec_buffer(),
                self.spec_offset(),
            ) {
                ReadStep::ReadMore(read_size)
            } else {
                ReadStep::Surface
            },
    {
        let remaining = vstd::slice::slice_subrange(
            self.buffer.as_slice(),
            self.offset,
            self.buffer.len(),
        );
        assert(remaining@ =~= self.spec_buffer().skip(self.spec_offset()));
        let mut reader = LazyRawBinaryReader_1_0::new_with_offset(remaining, self.offset);
        let (cut_short, at_end) = match reader.next() {
            Ok(LazyRawStreamItem::EndOfStream(_)) => (false, true),
            Err(IonError::Incomplete { .. }) => (true, false),
            _ => (false, false),
        };
        after_attempt(cut_short, at_end, self.source.len() == 0, read_size)
    }

    /// Yields the next item of the stream.
    ///
    /// While the item at the offset is cut short, or the buffered input has
    /// ended, and the source has more bytes, more bytes are read: first as many
    /// as the reader was made with, then twice as many each time, up to ten
    /// times the first size. The item is then read from what is buffered. An
    /// `Incomplete` error is surfaced only when the source is exhausted, and so
    /// is the end of the stream.
    #[verifier::rlimit(50)]
    pub fn next(&mut self) -> (r: IonResult<LazyRawStreamItem<'_>>)
        requires
            old(self).wf(),
        ensures
            final(self).wf(),
            final(self).spec_stream() == old(self).spec_stream(),
            final(self).spec_expected_read_size() == old(self).spec_expected_read_size(),
            final(self).spec_buffer() == buffer_reached(
                old(self).spec_buffer(),
                old(self).spec_source(),
                old(self).spec_offset(),
                at_least_one(old(self).spec_expected_read_size() as int),
                old(self).spec_expected_read_size(),
            ),
            item_found(
                final(self).spec_buffer().skip(old(self).spec_offset()),
                old(self).spec_offset(),
                r,
            ),
            r is Ok ==> final(self).spec_offset() == old(self).spec_offset() + item_length(
                final(self).spec_buffer().skip(old(self).spec_offset()),
            ),
            r is Err ==> final(self).spec_offset() == old(self).spec_offset(),
            r is Err && r->Err_0 is Incomplete ==> final(self).spec_source().len() == 0,
            r is Ok && r->Ok_0 is EndOfStream ==> final(self).spec_source().len() == 0,
            final(self).spec_stream_complete() == (old(self).spec_stream_complete()
                || final(self).spec_source().len() == 0),
    {
        let mut read_size = self.expected_read_size;
        if read_size == 0 {
            // A reader made to read nothing at a time still has to move on.
            read_size = 1;
        }
        loop
            invariant
                self.wf(),
                read_size >= 1,
                self.spec_stream() == old(self).spec_stream(),
                self.spec_offset() == old(self).spec_offset(),
                self.spec_expected_read_size() == old(self).spec_expected_read_size(),
                self.spec_stream_complete() == old(self).spec_stream_complete(),
                buffer_reached(
                    self.spec_buffer(),
                    self.spec_source(),
                    self.spec_offset(),
                    read_size,
                    self.spec_expected_read_size(),
                ) == buffer_reached(
                    old(self).spec_buffer(),
                    old(self).spec_source(),
                    old(self).spec_offset(),
                    at_least_one(old(self).spec_expected_read_size() as int),
                    old(self).spec_expected_read_size(),
                ),
            ensures
                self.spec_source().len() == 0 || !calls_for_more(
                    self.spec_buffer(),
                    self.spec_offset(),
                ),
                self.spec_buffer() == buffer_reached(
                    old(self).spec_buffer(),
                    old(self).spec_source(),
                    old(self).spec_offset(),
                    at_least_one(old(self).spec_expected_read_size() as int),
                    old(self).spec_expected_read_size(),
                ),
            decreases self.spec_source().len(),
        {
            match self.attempt(read_size) {
                ReadStep::Surface => {
                    break ;
                },
                ReadStep::ReadMore(length) => {
                    let _ = self.read_source(length);
                },
            }
            read_size = next_read_size(read_size, self.expected_read_size);
            if read_size == 0 {
                read_size = 1;
            }
        }
        if self.source.len() == 0 {
            self.stream_complete = true;
        }
        let remaining = vstd::slice::slice_subrange(
            self.buffer.as_slice(),
            self.offset,
            self.buffer.len(),
        );
        assert(remaining@ =~= self.spec_buffer().skip(self.spec_offset()));
        let mut reader = LazyRawBinaryReader_1_0::new_with_offset(remaining, self.offset);
        let result = reader.next();
        match result {
            Ok(item) => {
                self.offset = reader.position();
                Ok(item)
            },
            Err(error) => Err(error),
        }
    }

    /// True once a call of `next` has found the source exhausted.
    pub closed spec fn spec_stream_complete(&self) -> bool {
        self.stream_complete
    }

    /// Reports whether a call of `next` has found the source exhausted.
    pub fn is_stream_complete(&self) -> (b: bool)
        ensures
            b == self.spec_stream_complete(),
    {
        self.stream_complete
    }
}

} // verus!
