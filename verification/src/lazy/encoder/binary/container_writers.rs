//! The writers of lists, s-expressions and structs.
//!
//! The length of a container stands before its children, and is not known
//! before the last child is written. So the children are staged in a buffer of
//! the container's own, and the header is written to the parent's buffer when
//! the container is ended, followed by the staged bytes.

use vstd::prelude::*;
use crate::binary::var_uint::{var_uint_bytes, VarUInt};
use crate::lazy::encoder::binary::arena::{
    arena_bytes,
    arena_vec_as_slice,
    arena_vec_extend,
    arena_vec_new,
    BumpAllocator,
    BumpVec,
};
use crate::lazy::encoder::binary::encoding::{
    annotated_encoding,
    container_encoding,
    encode_annotated,
    ids_of,
    write_bytes,
    write_container_header,
};
use crate::lazy::encoder::binary::value_writer::BinaryValueWriter_1_0;
use crate::raw_symbol_token_ref::RawSymbolTokenRef;
use crate::result::{IonError, IonResult};
use crate::types::SymbolId;

verus! {

/// An open container: its type code, the buffer that stages its children, the
/// parent's buffer, and the annotations of the container.
pub struct BinaryContainerWriter_1_0<'value, 'top> {
    // A byte whose high nibble is the type code and whose low nibble is zero.
    pub type_code: u8,
    pub allocator: &'top BumpAllocator,
    pub buffer: BumpVec<'top>,
    pub parent_buffer: &'value mut BumpVec<'top>,
    pub annotations: &'value [SymbolId],
}

impl<'value, 'top> BinaryContainerWriter_1_0<'value, 'top> {
    /// The bytes that ending the container appends to the parent's buffer.
    pub open spec fn encoding(&self) -> Seq<u8> {
        annotated_encoding(
            ids_of(self.annotations@),
            container_encoding(self.type_code / 16, arena_bytes(self.buffer)),
        )
    }

    /// Opens a container with the given type descriptor, `0xB0`, `0xC0` or
    /// `0xD0`.
    pub fn new(
        type_code: u8,
        allocator: &'top BumpAllocator,
        parent_buffer: &'value mut BumpVec<'top>,
        annotations: &'value [SymbolId],
    ) -> (writer: Self)
        ensures
            writer.type_code == type_code,
            arena_bytes(writer.buffer) == Seq::<u8>::empty(),
            *writer.parent_buffer == *old(parent_buffer),
            *final(writer.parent_buffer) == *final(parent_buffer),
            writer.annotations == annotations,
            writer.allocator == allocator,
    {
        Self { type_code, allocator, buffer: arena_vec_new(allocator), parent_buffer, annotations }
    }

    /// Returns the bytes that are staged.
    pub fn buffer(&self) -> (bytes: &[u8])
        ensures
            bytes@ == arena_bytes(self.buffer),
    {
        arena_vec_as_slice(&self.buffer)
    }

    /// Returns a writer for the next child, without annotations. What it
    /// writes is staged after the children written so far.
    pub fn value_writer(&mut self) -> (writer: BinaryValueWriter_1_0<'_, 'top>)
        ensures
            *writer.encoding_buffer == old(self).buffer,
            final(self).buffer == *final(writer.encoding_buffer),
            writer.annotations@.len() == 0,
            writer.allocator == old(self).allocator,
            final(self).type_code == old(self).type_code,
            *final(self).parent_buffer == *old(self).parent_buffer,
            *final(final(self).parent_buffer) == *final(old(self).parent_buffer),
            final(self).annotations == old(self).annotations,
            final(self).allocator == old(self).allocator,
    {
        BinaryValueWriter_1_0 {
            allocator: self.allocator,
            encoding_buffer: &mut self.buffer,
            annotations: &[],
        }
    }

    /// Returns a writer for the next child, which wraps it in the given
    /// annotations.
    pub fn annotated_value_writer<'a>(&'a mut self, annotations: &'a [SymbolId]) -> (writer:
        BinaryValueWriter_1_0<'a, 'top>)
        ensures
            *writer.encoding_buffer == old(self).buffer,
            final(self).buffer == *final(writer.encoding_buffer),
            writer.annotations == annotations,
            writer.allocator == old(self).allocator,
            final(self).type_code == old(self).type_code,
            *final(self).parent_buffer == *old(self).parent_buffer,
            *final(final(self).parent_buffer) == *final(old(self).parent_buffer),
            final(self).annotations == old(self).annotations,
            final(self).allocator == old(self).allocator,
    {
        BinaryValueWriter_1_0 {
            allocator: self.allocator,
            encoding_buffer: &mut self.buffer,
            annotations,
        }
    }

    /// Ends the container: appends its header, which holds the length of the
    /// staged bytes, and the staged bytes to the parent's buffer.
    pub fn end(self) -> (r: IonResult<()>)
        ensures
            r is Ok,
            arena_bytes(*final(self.parent_buffer)) == arena_bytes(*old(self.parent_buffer))
                + self.encoding(),
    {
        let body = arena_vec_as_slice(&self.buffer);
        let mut encoded: Vec<u8> = Vec::new();
        write_container_header(&mut encoded, self.type_code / 16, body.len());
        write_bytes(&mut encoded, body);
        assert(encoded@ =~= container_encoding(self.type_code / 16, body@));
        if self.annotations.len() == 0 {
            arena_vec_extend(self.parent_buffer, encoded.as_slice());
        } else {
            let mut wrapped: Vec<u8> = Vec::new();
            encode_annotated(&mut wrapped, self.annotations, encoded.as_slice());
            arena_vec_extend(self.parent_buffer, wrapped.as_slice());
        }
        Ok(())
    }
}

/// An open list.
pub struct BinaryListWriter_1_0<'value, 'top> {
    pub container_writer: BinaryContainerWriter_1_0<'value, 'top>,
}

impl<'value, 'top> BinaryListWriter_1_0<'value, 'top> {
    pub fn new(container_writer: BinaryContainerWriter_1_0<'value, 'top>) -> (writer: Self)
        ensures
            writer.container_writer.type_code == container_writer.type_code,
            writer.container_writer.buffer == container_writer.buffer,
            writer.container_writer.annotations == container_writer.annotations,
            writer.container_writer.allocator == container_writer.allocator,
            *writer.container_writer.parent_buffer == *old(container_writer.parent_buffer),
            *final(writer.container_writer.parent_buffer) == *final(container_writer.parent_buffer),
    {
        Self { container_writer }
    }

    /// Returns a writer for the next child.
    pub fn value_writer(&mut self) -> (writer: BinaryValueWriter_1_0<'_, 'top>)
        ensures
            *writer.encoding_buffer == old(self).container_writer.buffer,
            final(self).container_writer.buffer == *final(writer.encoding_buffer),
            writer.annotations@.len() == 0,
            writer.allocator == old(self).container_writer.allocator,
            final(self).container_writer.type_code == old(self).container_writer.type_code,
            *final(self).container_writer.parent_buffer
                == *old(self).container_writer.parent_buffer,
            *final(final(self).container_writer.parent_buffer)
                == *final(old(self).container_writer.parent_buffer),
            final(self).container_writer.annotations == old(self).container_writer.annotations,
            final(self).container_writer.allocator == old(self).container_writer.allocator,
    {
        self.container_writer.value_writer()
    }

    /// Ends the list.
    pub fn end(self) -> (r: IonResult<()>)
        ensures
            r is Ok,
            arena_bytes(*final(self.container_writer.parent_buffer)) == arena_bytes(
                *old(self.container_writer.parent_buffer),
            ) + self.container_writer.encoding(),
    {
        self.container_writer.end()
    }
}

/// An open s-expression.
pub struct BinarySExpWriter_1_0<'value, 'top> {
    pub container_writer: BinaryContainerWriter_1_0<'value, 'top>,
}

impl<'value, 'top> BinarySExpWriter_1_0<'value, 'top> {
    pub fn new(container_writer: BinaryContainerWriter_1_0<'value, 'top>) -> (writer: Self)
        ensures
            writer.container_writer.type_code == container_writer.type_code,
            writer.container_writer.buffer == container_writer.buffer,
            writer.container_writer.annotations == container_writer.annotations,
            writer.container_writer.allocator == container_writer.allocator,
            *writer.container_writer.parent_buffer == *old(container_writer.parent_buffer),
            *final(writer.container_writer.parent_buffer) == *final(container_writer.parent_buffer),
    {
        Self { container_writer }
    }

    /// Returns a writer for the next child.
    pub fn value_writer(&mut self) -> (writer: BinaryValueWriter_1_0<'_, 'top>)
        ensures
            *writer.encoding_buffer == old(self).container_writer.buffer,
            final(self).container_writer.buffer == *final(writer.encoding_buffer),
            writer.annotations@.len() == 0,
            writer.allocator == old(self).container_writer.allocator,
            final(self).container_writer.type_code == old(self).container_writer.type_code,
            *final(self).container_writer.parent_buffer
                == *old(self).container_writer.parent_buffer,
            *final(final(self).container_writer.parent_buffer)
                == *final(old(self).container_writer.parent_buffer),
            final(self).container_writer.annotations == old(self).container_writer.annotations,
            final(self).container_writer.allocator == old(self).container_writer.allocator,
    {
        self.container_writer.value_writer()
    }

    /// Ends the s-expression.
    pub fn end(self) -> (r: IonResult<()>)
        ensures
            r is Ok,
            arena_bytes(*final(self.container_writer.parent_buffer)) == arena_bytes(
                *old(self.container_writer.parent_buffer),
            ) + self.container_writer.encoding(),
    {
        self.container_writer.end()
    }
}

/// An open struct.
pub struct BinaryStructWriter_1_0<'value, 'top> {
    pub container_writer: BinaryContainerWriter_1_0<'value, 'top>,
}

impl<'value, 'top> BinaryStructWriter_1_0<'value, 'top> {
    pub fn new(container_writer: BinaryContainerWriter_1_0<'value, 'top>) -> (writer: Self)
        ensures
            writer.container_writer.type_code == container_writer.type_code,
            writer.container_writer.buffer == container_writer.buffer,
            writer.container_writer.annotations == container_writer.annotations,
            writer.container_writer.allocator == container_writer.allocator,
            *writer.container_writer.parent_buffer == *old(container_writer.parent_buffer),
            *final(writer.container_writer.parent_buffer) == *final(container_writer.parent_buffer),
    {
        Self { container_writer }
    }

    /// Writes the name of the next field and returns a writer for its value.
    ///
    /// Only a symbol ID can name a field at this level. A name given as text
    /// is an encoding error, and leaves the struct as it was.
    pub fn field_writer(&mut self, name: RawSymbolTokenRef<'_>) -> (r: IonResult<
        BinaryValueWriter_1_0<'_, 'top>,
    >)
        ensures
            match name {
                RawSymbolTokenRef::SymbolId(sid) => r is Ok && arena_bytes(
                    *r->Ok_0.encoding_buffer,
                ) == arena_bytes(old(self).container_writer.buffer) + var_uint_bytes(sid as nat)
                    && final(self).container_writer.buffer == *final(r->Ok_0.encoding_buffer)
                    && r->Ok_0.annotations@.len() == 0 && r->Ok_0.allocator
                        == old(self).container_writer.allocator,
                RawSymbolTokenRef::Text(_) => r is Err && r->Err_0 == IonError::Encoding
                    && final(self).container_writer.buffer == old(self).container_writer.buffer,
            },
            final(self).container_writer.type_code == old(self).container_writer.type_code,
            *final(self).container_writer.parent_buffer
                == *old(self).container_writer.parent_buffer,
            *final(final(self).container_writer.parent_buffer)
                == *final(old(self).container_writer.parent_buffer),
            final(self).container_writer.annotations == old(self).container_writer.annotations,
            final(self).container_writer.allocator == old(self).container_writer.allocator,
    {
        match name {
            RawSymbolTokenRef::SymbolId(sid) => {
                let mut field_id: Vec<u8> = Vec::new();
                let _ = VarUInt::write_u64(&mut field_id, sid as u64);
                arena_vec_extend(&mut self.container_writer.buffer, field_id.as_slice());
                Ok(self.container_writer.value_writer())
            },
            RawSymbolTokenRef::Text(_) => Err(IonError::Encoding),
        }
    }

    /// Ends the struct.
    pub fn end(self) -> (r: IonResult<()>)
        ensures
            r is Ok,
            arena_bytes(*final(self.container_writer.parent_buffer)) == arena_bytes(
                *old(self.container_writer.parent_buffer),
            ) + self.container_writer.encoding(),
    {
        self.container_writer.end()
    }
}

} // verus!
