//! The top level of the binary writer.

use vstd::prelude::*;
use crate::lazy::encoder::binary::arena::{
    arena_bytes,
    arena_new,
    arena_reset,
    arena_vec_as_slice,
    arena_vec_clear,
    arena_vec_new,
    BumpAllocator,
    BumpVec,
};
use crate::lazy::encoder::binary::encoding::write_bytes;
use crate::lazy::encoder::binary::value_writer::{
    BinaryAnnotatedValueWriter_1_0,
    BinaryValueWriter_1_0,
};
use crate::result::IonResult;

verus! {

/// The four bytes that start a stream of Ion 1.0.
pub open spec fn ivm_bytes() -> Seq<u8> {
    seq![0xE0u8, 0x01u8, 0x00u8, 0xEAu8]
}

/// Makes an arena for writers to stage their values in.
pub fn new_arena() -> (allocator: BumpAllocator) {
    arena_new()
}

/// Releases everything that writers have staged in the arena. The borrow
/// rules see to it that no writer of the arena is left.
pub fn reset_arena(allocator: &mut BumpAllocator) {
    arena_reset(allocator)
}

/// Writes a binary Ion stream.
///
/// Values are staged in a buffer in the arena and reach the output when the
/// writer is flushed. The output is a vector of bytes that the writer owns and
/// hands out; sending the bytes on is the caller's matter. The arena is the
/// caller's too: once the writer is gone, `reset_arena` releases what was
/// staged in it.
pub struct LazyRawBinaryWriter_1_0<'top> {
    pub output: Vec<u8>,
    pub allocator: &'top BumpAllocator,
    pub encoding_buffer: BumpVec<'top>,
}

impl<'top> LazyRawBinaryWriter_1_0<'top> {
    /// A writer that appends to `output`. The version marker of Ion 1.0 is
    /// written to the output at once.
    pub fn new(allocator: &'top BumpAllocator, output: Vec<u8>) -> (r: IonResult<Self>)
        ensures
            r is Ok,
            r->Ok_0.output@ == output@ + ivm_bytes(),
            arena_bytes(r->Ok_0.encoding_buffer) == Seq::<u8>::empty(),
            r->Ok_0.allocator == allocator,
    {
        let mut output = output;
        let ghost before = output@;
        output.push(0xE0);
        output.push(0x01);
        output.push(0x00);
        output.push(0xEA);
        assert(output@ =~= before + ivm_bytes());
        Ok(Self { output, allocator, encoding_buffer: arena_vec_new(allocator) })
    }

    /// Returns a writer for the next value of the top level, without
    /// annotations. What it writes is staged after the values written so far.
    pub fn value_writer(&mut self) -> (writer: BinaryValueWriter_1_0<'_, 'top>)
        ensures
            *writer.encoding_buffer == old(self).encoding_buffer,
            final(self).encoding_buffer == *final(writer.encoding_buffer),
            writer.annotations@.len() == 0,
            writer.allocator == old(self).allocator,
            final(self).output == old(self).output,
            final(self).allocator == old(self).allocator,
    {
        BinaryValueWriter_1_0 {
            allocator: self.allocator,
            encoding_buffer: &mut self.encoding_buffer,
            annotations: &[],
        }
    }

    /// Returns a writer for the next value of the top level that can still be
    /// given annotations.
    pub fn annotated_value_writer(&mut self) -> (writer: BinaryAnnotatedValueWriter_1_0<'_, 'top>)
        ensures
            *writer.value_writer.encoding_buffer == old(self).encoding_buffer,
            final(self).encoding_buffer == *final(writer.value_writer.encoding_buffer),
            writer.value_writer.annotations@.len() == 0,
            writer.value_writer.allocator == old(self).allocator,
            final(self).output == old(self).output,
            final(self).allocator == old(self).allocator,
    {
        BinaryAnnotatedValueWriter_1_0 {
            value_writer: BinaryValueWriter_1_0 {
                allocator: self.allocator,
                encoding_buffer: &mut self.encoding_buffer,
                annotations: &[],
            },
        }
    }

    /// Moves the staged bytes to the end of the output. Nothing is staged
    /// afterwards.
    pub fn flush(&mut self) -> (r: IonResult<()>)
        ensures
            r is Ok,
            final(self).output@ == old(self).output@ + arena_bytes(old(self).encoding_buffer),
            arena_bytes(final(self).encoding_buffer) == Seq::<u8>::empty(),
            final(self).allocator == old(self).allocator,
    {
        write_bytes(&mut self.output, arena_vec_as_slice(&self.encoding_buffer));
        arena_vec_clear(&mut self.encoding_buffer);
        Ok(())
    }

    /// Returns the output: the bytes that were flushed so far, after what the
    /// output held when the writer was made.
    pub fn output(&self) -> (output: &Vec<u8>)
        ensures
            output@ == self.output@,
    {
        &self.output
    }

    /// Returns the bytes that are staged.
    pub fn staged(&self) -> (bytes: &[u8])
        ensures
            bytes@ == arena_bytes(self.encoding_buffer),
    {
        arena_vec_as_slice(&self.encoding_buffer)
    }

    /// Gives up the writer and returns the output. Bytes that were not
    /// flushed are dropped.
    pub fn into_output(self) -> (output: Vec<u8>)
        ensures
            output@ == self.output@,
    {
        self.output
    }
}

} // verus!
