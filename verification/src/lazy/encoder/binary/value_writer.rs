//! The writers of single values.

use vstd::prelude::*;
use crate::lazy::encoder::binary::arena::{
    arena_bytes,
    arena_vec_as_slice,
    arena_vec_extend,
    arena_vec_push,
    BumpAllocator,
    BumpVec,
};
use crate::lazy::encoder::binary::container_writers::{
    BinaryContainerWriter_1_0,
    BinaryListWriter_1_0,
    BinarySExpWriter_1_0,
    BinaryStructWriter_1_0,
};
use crate::lazy::encoder::binary::encoding::{
    annotated_encoding,
    container_encoding,
    blob_encoding,
    bool_encoding,
    clob_encoding,
    decimal_encoding,
    encode_annotated,
    encode_bool,
    encode_decimal,
    encode_f32_bits,
    encode_f64_bits,
    encode_i64,
    encode_int,
    encode_lob,
    encode_null,
    encode_string,
    encode_symbol_id,
    encode_timestamp,
    float32_encoding,
    float64_encoding,
    ids_of,
    int_encoding,
    lemma_lob_encoding,
    lob_encoding,
    null_encoding,
    string_encoding,
    symbol_encoding,
    timestamp_encoding,
};
use crate::binary::var_int::MAGNITUDE_LIMIT;

use crate::raw_symbol_token_ref::RawSymbolTokenRef;
use crate::result::{IonError, IonResult};
use crate::types::decimal::Decimal;
use crate::types::integer::Int;
use crate::types::timestamp::Timestamp;
use crate::types::{IonType, SymbolId};

verus! {

/// Writes one value, with the annotations it was given, to the end of an
/// encoding buffer.
///
/// Every method takes the writer by value: a writer writes one value. Each
/// appends exactly the encoding of its value to the buffer, or fails and
/// appends nothing.
pub struct BinaryValueWriter_1_0<'value, 'top> {
    pub allocator: &'top BumpAllocator,
    pub encoding_buffer: &'value mut BumpVec<'top>,
    pub annotations: &'value [SymbolId],
}

impl<'value, 'top> BinaryValueWriter_1_0<'value, 'top> {
    /// A writer of a value without annotations.
    pub fn new(allocator: &'top BumpAllocator, encoding_buffer: &'value mut BumpVec<'top>) -> (writer:
        Self)
        ensures
            *writer.encoding_buffer == *old(encoding_buffer),
            *final(writer.encoding_buffer) == *final(encoding_buffer),
            writer.annotations@.len() == 0,
            writer.allocator == allocator,
    {
        Self { allocator, encoding_buffer, annotations: &[] }
    }

    /// The encoding `value`, with this writer's annotations around it.
    pub open spec fn wrapped(&self, value: Seq<u8>) -> Seq<u8> {
        annotated_encoding(ids_of(self.annotations@), value)
    }

    /// Appends one byte to the buffer.
    pub fn push_byte(&mut self, byte: u8)
        ensures
            arena_bytes(*final(self).encoding_buffer)
                == arena_bytes(*old(self).encoding_buffer).push(
                byte,
            ),
            *final(final(self).encoding_buffer) == *final(old(self).encoding_buffer),
            final(self).annotations == old(self).annotations,
            final(self).allocator == old(self).allocator,
    {
        arena_vec_push(self.encoding_buffer, byte);
    }

    /// Appends bytes to the buffer.
    pub fn push_bytes(&mut self, bytes: &[u8])
        ensures
            arena_bytes(*final(self).encoding_buffer) == arena_bytes(*old(self).encoding_buffer)
                + bytes@,
            *final(final(self).encoding_buffer) == *final(old(self).encoding_buffer),
            final(self).annotations == old(self).annotations,
            final(self).allocator == old(self).allocator,
    {
        arena_vec_extend(self.encoding_buffer, bytes);
    }

    /// Returns the bytes that the buffer holds.
    pub fn buffer(&self) -> (bytes: &[u8])
        ensures
            bytes@ == arena_bytes(*old(self.encoding_buffer)),
    {
        arena_vec_as_slice(self.encoding_buffer)
    }

    /// Appends the value whose encoding is `value`, with the annotations.
    fn commit(self, value: &[u8])
        ensures
            arena_bytes(*final(self.encoding_buffer)) == arena_bytes(*old(self.encoding_buffer))
                + self.wrapped(value@),
    {
        let mut this = self;
        if this.annotations.len() == 0 {
            this.push_bytes(value);
        } else {
            let mut wrapped: Vec<u8> = Vec::new();
            encode_annotated(&mut wrapped, this.annotations, value);
            this.push_bytes(wrapped.as_slice());
        }
    }

    /// Writes a symbol given by its symbol ID.
    pub fn write_symbol_id(self, symbol_id: SymbolId) -> (r: IonResult<()>)
        ensures
            r is Ok,
            arena_bytes(*final(self.encoding_buffer)) == arena_bytes(*old(self.encoding_buffer))
                + self.wrapped(symbol_encoding(symbol_id as nat)),
    {
        let mut encoded: Vec<u8> = Vec::new();
        encode_symbol_id(&mut encoded, symbol_id);
        self.commit(encoded.as_slice());
        Ok(())
    }

    /// Writes `value` under the type descriptor `type_code`, whose low
    /// nibble takes the length: `0x90` for a clob and `0xA0` for a blob.
    pub fn write_lob(self, value: &[u8], type_code: u8) -> (r: IonResult<()>)
        ensures
            r is Ok,
            arena_bytes(*final(self.encoding_buffer)) == arena_bytes(*old(self.encoding_buffer))
                + self.wrapped(lob_encoding(type_code, value@)),
    {
        let mut encoded: Vec<u8> = Vec::new();
        encode_lob(&mut encoded, value, type_code);
        self.commit(encoded.as_slice());
        Ok(())
    }

    /// Writes the null of the given type.
    pub fn write_null(self, ion_type: IonType) -> (r: IonResult<()>)
        ensures
            r is Ok,
            arena_bytes(*final(self.encoding_buffer)) == arena_bytes(*old(self.encoding_buffer))
                + self.wrapped(null_encoding(ion_type)),
    {
        let mut encoded: Vec<u8> = Vec::new();
        encode_null(&mut encoded, ion_type);
        self.commit(encoded.as_slice());
        Ok(())
    }

    /// Writes a boolean.
    pub fn write_bool(self, value: bool) -> (r: IonResult<()>)
        ensures
            r is Ok,
            arena_bytes(*final(self.encoding_buffer)) == arena_bytes(*old(self.encoding_buffer))
                + self.wrapped(bool_encoding(value)),
    {
        let mut encoded: Vec<u8> = Vec::new();
        encode_bool(&mut encoded, value);
        self.commit(encoded.as_slice());
        Ok(())
    }

    /// Writes an integer that an `i64` holds.
    pub fn write_i64(self, value: i64) -> (r: IonResult<()>)
        ensures
            r is Ok,
            arena_bytes(*final(self.encoding_buffer)) == arena_bytes(*old(self.encoding_buffer))
                + self.wrapped(int_encoding(value as int)),
    {
        let mut encoded: Vec<u8> = Vec::new();
        encode_i64(&mut encoded, value);
        self.commit(encoded.as_slice());
        Ok(())
    }

    /// Writes an integer of any size.
    pub fn write_int(self, value: &Int) -> (r: IonResult<()>)
        requires
            value.wf(),
        ensures
            r is Ok,
            arena_bytes(*final(self.encoding_buffer)) == arena_bytes(*old(self.encoding_buffer))
                + self.wrapped(int_encoding(value.value())),
    {
        let mut encoded: Vec<u8> = Vec::new();
        encode_int(&mut encoded, value);
        self.commit(encoded.as_slice());
        Ok(())
    }

    /// Writes a float given by the bits of a single-precision number.
    /// Positive zero is written without a body.
    pub fn write_f32(self, bits: u32) -> (r: IonResult<()>)
        ensures
            r is Ok,
            arena_bytes(*final(self.encoding_buffer)) == arena_bytes(*old(self.encoding_buffer))
                + self.wrapped(float32_encoding(bits)),
    {
        let mut encoded: Vec<u8> = Vec::new();
        encode_f32_bits(&mut encoded, bits);
        self.commit(encoded.as_slice());
        Ok(())
    }

    /// Writes a float given by the bits of a double-precision number.
    /// Positive zero is written without a body.
    pub fn write_f64(self, bits: u64) -> (r: IonResult<()>)
        ensures
            r is Ok,
            arena_bytes(*final(self.encoding_buffer)) == arena_bytes(*old(self.encoding_buffer))
                + self.wrapped(float64_encoding(bits)),
    {
        let mut encoded: Vec<u8> = Vec::new();
        encode_f64_bits(&mut encoded, bits);
        self.commit(encoded.as_slice());
        Ok(())
    }

    /// Writes a decimal. An exponent whose magnitude is 2 to the 62 or more
    /// is an encoding error.
    pub fn write_decimal(self, value: &Decimal) -> (r: IonResult<()>)
        requires
            value.wf(),
        ensures
            vstd::math::abs(value.spec_exponent() as int) < MAGNITUDE_LIMIT ==> r is Ok
                && arena_bytes(*final(self.encoding_buffer)) == arena_bytes(
                *old(self.encoding_buffer),
            ) + self.wrapped(decimal_encoding(value.view_parts())),
            vstd::math::abs(value.spec_exponent() as int) >= MAGNITUDE_LIMIT ==> r == Err::<
                (),
                IonError,
            >(IonError::Encoding) && arena_bytes(*final(self.encoding_buffer)) == arena_bytes(
                *old(self.encoding_buffer),
            ),
    {
        let mut encoded: Vec<u8> = Vec::new();
        match encode_decimal(&mut encoded, value) {
            Ok(_) => {
                self.commit(encoded.as_slice());
                Ok(())
            },
            Err(error) => Err(error),
        }
    }

    /// Writes a timestamp. A fraction whose exponent has a magnitude of 2 to
    /// the 62 or more is an encoding error.
    pub fn write_timestamp(self, value: &Timestamp) -> (r: IonResult<()>)
        requires
            value.wf(),
        ensures
            match r {
                Ok(_) => arena_bytes(*final(self.encoding_buffer)) == arena_bytes(
                    *old(self.encoding_buffer),
                ) + self.wrapped(timestamp_encoding(value.view_parts())),
                Err(error) => error == IonError::Encoding && arena_bytes(
                    *final(self.encoding_buffer),
                ) == arena_bytes(*old(self.encoding_buffer)),
            },
            r is Err <==> value.fractional_seconds is Some && vstd::math::abs(
                value.fractional_seconds->Some_0.spec_exponent() as int,
            ) >= MAGNITUDE_LIMIT,
    {
        let mut encoded: Vec<u8> = Vec::new();
        match encode_timestamp(&mut encoded, value) {
            Ok(_) => {
                self.commit(encoded.as_slice());
                Ok(())
            },
            Err(error) => Err(error),
        }
    }

    /// Writes a string.
    pub fn write_string(self, value: &str) -> (r: IonResult<()>)
        ensures
            r is Ok,
            arena_bytes(*final(self.encoding_buffer)) == arena_bytes(*old(self.encoding_buffer))
                + self.wrapped(string_encoding(value@)),
    {
        let mut encoded: Vec<u8> = Vec::new();
        encode_string(&mut encoded, value);
        self.commit(encoded.as_slice());
        Ok(())
    }

    /// Writes a symbol. The binary encoding holds symbol IDs only: a token
    /// with text is an illegal operation, and nothing is written.
    pub fn write_symbol(self, value: RawSymbolTokenRef<'_>) -> (r: IonResult<()>)
        ensures
            match value {
                RawSymbolTokenRef::SymbolId(sid) => r is Ok && arena_bytes(
                    *final(self.encoding_buffer),
                ) == arena_bytes(*old(self.encoding_buffer)) + self.wrapped(
                    symbol_encoding(sid as nat),
                ),
                RawSymbolTokenRef::Text(_) => r == Err::<(), IonError>(IonError::IllegalOperation)
                    && arena_bytes(*final(self.encoding_buffer)) == arena_bytes(
                    *old(self.encoding_buffer),
                ),
            },
    {
        match value {
            RawSymbolTokenRef::SymbolId(sid) => self.write_symbol_id(sid),
            RawSymbolTokenRef::Text(_text) => Err(IonError::IllegalOperation),
        }
    }

    /// Writes a clob.
    pub fn write_clob(self, value: &[u8]) -> (r: IonResult<()>)
        ensures
            r is Ok,
            arena_bytes(*final(self.encoding_buffer)) == arena_bytes(*old(self.encoding_buffer))
                + self.wrapped(clob_encoding(value@)),
    {
        proof {
            lemma_lob_encoding(0x90, value@);
        }
        // The clob type descriptor's high nibble is type code 9.
        self.write_lob(value, 0x90)
    }

    /// Writes a blob.
    pub fn write_blob(self, value: &[u8]) -> (r: IonResult<()>)
        ensures
            r is Ok,
            arena_bytes(*final(self.encoding_buffer)) == arena_bytes(*old(self.encoding_buffer))
                + self.wrapped(blob_encoding(value@)),
    {
        proof {
            lemma_lob_encoding(0xA0, value@);
        }
        // The blob type descriptor's high nibble is type code 10.
        self.write_lob(value, 0xA0)
    }

    /// Starts a list. Its children are staged in a buffer of their own; the
    /// parent buffer is not touched until the list is ended.
    pub fn list_writer(self) -> (writer: BinaryListWriter_1_0<'value, 'top>)
        ensures
            writer.container_writer.type_code == 11 * 16,
            arena_bytes(writer.container_writer.buffer) == Seq::<u8>::empty(),
            *writer.container_writer.parent_buffer == *old(self.encoding_buffer),
            *final(writer.container_writer.parent_buffer) == *final(self.encoding_buffer),
            writer.container_writer.annotations == self.annotations,
            writer.container_writer.allocator == self.allocator,
    {
        BinaryListWriter_1_0::new(
            BinaryContainerWriter_1_0::new(
                0xB0,
                self.allocator,
                self.encoding_buffer,
                self.annotations,
            ),
        )
    }

    /// Writes a list whose children `list_fn` writes: the list is
    /// started, `list_fn` is handed the open list, and the list is
    /// ended when `list_fn` has succeeded. What is appended then is the
    /// header, which holds the length of what `list_fn` staged, and what it
    /// staged. When `list_fn` fails, its error is returned and nothing is
    /// written.
    ///
    /// `list_fn` must accept any open list, and leave
    /// alone what it was made with: its type code, its annotations, and the
    /// buffer of its parent.
    pub fn write_list<F: FnOnce(&mut BinaryListWriter_1_0<'value, 'top>) -> IonResult<()>>(
        self,
        list_fn: F,
    ) -> (r: IonResult<()>)
        requires
            forall|open: &mut BinaryListWriter_1_0<'value, 'top>|
                open.container_writer.type_code == 0xB0 ==> #[trigger] list_fn.requires((open,)),
            forall|open: &mut BinaryListWriter_1_0<'value, 'top>, outcome: IonResult<()>| #[trigger]
                list_fn.ensures((open,), outcome) ==> {
                    &&& final(open).container_writer.type_code == open.container_writer.type_code
                    &&& final(open).container_writer.annotations
                        == open.container_writer.annotations
                    &&& *final(open).container_writer.parent_buffer
                        == *open.container_writer.parent_buffer
                    &&& *final(final(open).container_writer.parent_buffer)
                        == *final(open.container_writer.parent_buffer)
                },
        ensures
            exists|open: &mut BinaryListWriter_1_0<'value, 'top>|
                {
                    &&& #[trigger] list_fn.ensures((open,), r)
                    &&& open.container_writer.type_code == 0xB0
                    &&& arena_bytes(open.container_writer.buffer) == Seq::<u8>::empty()
                    &&& r is Ok ==> arena_bytes(*final(self.encoding_buffer)) == arena_bytes(
                        *old(self.encoding_buffer),
                    ) + self.wrapped(
                        container_encoding(
                            11,
                            arena_bytes(final(open).container_writer.buffer),
                        ),
                    )
                },
            r is Err ==> arena_bytes(*final(self.encoding_buffer)) == arena_bytes(
                *old(self.encoding_buffer),
            ),
    {
        let mut open = self.list_writer();
        match list_fn(&mut open) {
            Ok(done) => {
                let _ = open.end();
                Ok(done)
            },
            Err(error) => Err(error),
        }
    }

    /// Starts an s-expression.
    pub fn sexp_writer(self) -> (writer: BinarySExpWriter_1_0<'value, 'top>)
        ensures
            writer.container_writer.type_code == 12 * 16,
            arena_bytes(writer.container_writer.buffer) == Seq::<u8>::empty(),
            *writer.container_writer.parent_buffer == *old(self.encoding_buffer),
            *final(writer.container_writer.parent_buffer) == *final(self.encoding_buffer),
            writer.container_writer.annotations == self.annotations,
            writer.container_writer.allocator == self.allocator,
    {
        BinarySExpWriter_1_0::new(
            BinaryContainerWriter_1_0::new(
                0xC0,
                self.allocator,
                self.encoding_buffer,
                self.annotations,
            ),
        )
    }

    /// Writes an s-expression whose children `sexp_fn` writes: the s-expression is
    /// started, `sexp_fn` is handed the open s-expression, and the s-expression is
    /// ended when `sexp_fn` has succeeded. What is appended then is the
    /// header, which holds the length of what `sexp_fn` staged, and what it
    /// staged. When `sexp_fn` fails, its error is returned and nothing is
    /// written.
    ///
    /// `sexp_fn` must accept any open s-expression, and leave
    /// alone what it was made with: its type code, its annotations, and the
    /// buffer of its parent.
    pub fn write_sexp<F: FnOnce(&mut BinarySExpWriter_1_0<'value, 'top>) -> IonResult<()>>(
        self,
        sexp_fn: F,
    ) -> (r: IonResult<()>)
        requires
            forall|open: &mut BinarySExpWriter_1_0<'value, 'top>|
                open.container_writer.type_code == 0xC0 ==> #[trigger] sexp_fn.requires((open,)),
            forall|open: &mut BinarySExpWriter_1_0<'value, 'top>, outcome: IonResult<()>| #[trigger]
                sexp_fn.ensures((open,), outcome) ==> {
                    &&& final(open).container_writer.type_code == open.container_writer.type_code
                    &&& final(open).container_writer.annotations
                        == open.container_writer.annotations
                    &&& *final(open).container_writer.parent_buffer
                        == *open.container_writer.parent_buffer
                    &&& *final(final(open).container_writer.parent_buffer)
                        == *final(open.container_writer.parent_buffer)
                },
        ensures
            exists|open: &mut BinarySExpWriter_1_0<'value, 'top>|
                {
                    &&& #[trigger] sexp_fn.ensures((open,), r)
                    &&& open.container_writer.type_code == 0xC0
                    &&& arena_bytes(open.container_writer.buffer) == Seq::<u8>::empty()
                    &&& r is Ok ==> arena_bytes(*final(self.encoding_buffer)) == arena_bytes(
                        *old(self.encoding_buffer),
                    ) + self.wrapped(
                        container_encoding(
                            12,
                            arena_bytes(final(open).container_writer.buffer),
                        ),
                    )
                },
            r is Err ==> arena_bytes(*final(self.encoding_buffer)) == arena_bytes(
                *old(self.encoding_buffer),
            ),
    {
        let mut open = self.sexp_writer();
        match sexp_fn(&mut open) {
            Ok(done) => {
                let _ = open.end();
                Ok(done)
            },
            Err(error) => Err(error),
        }
    }

    /// Starts a struct.
    pub fn struct_writer(self) -> (writer: BinaryStructWriter_1_0<'value, 'top>)
        ensures
            writer.container_writer.type_code == 13 * 16,
            arena_bytes(writer.container_writer.buffer) == Seq::<u8>::empty(),
            *writer.container_writer.parent_buffer == *old(self.encoding_buffer),
            *final(writer.container_writer.parent_buffer) == *final(self.encoding_buffer),
            writer.container_writer.annotations == self.annotations,
            writer.container_writer.allocator == self.allocator,
    {
        BinaryStructWriter_1_0::new(
            BinaryContainerWriter_1_0::new(
                0xD0,
                self.allocator,
                self.encoding_buffer,
                self.annotations,
            ),
        )
    }

    /// Writes a struct whose children `struct_fn` writes: the struct is
    /// started, `struct_fn` is handed the open struct, and the struct is
    /// ended when `struct_fn` has succeeded. What is appended then is the
    /// header, which holds the length of what `struct_fn` staged, and what it
    /// staged. When `struct_fn` fails, its error is returned and nothing is
    /// written.
    ///
    /// `struct_fn` must accept any open struct, and leave
    /// alone what it was made with: its type code, its annotations, and the
    /// buffer of its parent.
    pub fn write_struct<F: FnOnce(&mut BinaryStructWriter_1_0<'value, 'top>) -> IonResult<()>>(
        self,
        struct_fn: F,
    ) -> (r: IonResult<()>)
        requires
            forall|open: &mut BinaryStructWriter_1_0<'value, 'top>|
                open.container_writer.type_code == 0xD0 ==> #[trigger] struct_fn.requires((open,)),
            forall|open: &mut BinaryStructWriter_1_0<'value, 'top>, outcome: IonResult<()>| #[trigger]
                struct_fn.ensures((open,), outcome) ==> {
                    &&& final(open).container_writer.type_code == open.container_writer.type_code
                    &&& final(open).container_writer.annotations
                        == open.container_writer.annotations
                    &&& *final(open).container_writer.parent_buffer
                        == *open.container_writer.parent_buffer
                    &&& *final(final(open).container_writer.parent_buffer)
                        == *final(open.container_writer.parent_buffer)
                },
        ensures
            exists|open: &mut BinaryStructWriter_1_0<'value, 'top>|
                {
                    &&& #[trigger] struct_fn.ensures((open,), r)
                    &&& open.container_writer.type_code == 0xD0
                    &&& arena_bytes(open.container_writer.buffer) == Seq::<u8>::empty()
                    &&& r is Ok ==> arena_bytes(*final(self.encoding_buffer)) == arena_bytes(
                        *old(self.encoding_buffer),
                    ) + self.wrapped(
                        container_encoding(
                            13,
                            arena_bytes(final(open).container_writer.buffer),
                        ),
                    )
                },
            r is Err ==> arena_bytes(*final(self.encoding_buffer)) == arena_bytes(
                *old(self.encoding_buffer),
            ),
    {
        let mut open = self.struct_writer();
        match struct_fn(&mut open) {
            Ok(done) => {
                let _ = open.end();
                Ok(done)
            },
            Err(error) => Err(error),
        }
    }
}

/// A writer of one value that has not been told yet whether the value has
/// annotations.
pub struct BinaryAnnotatedValueWriter_1_0<'value, 'top> {
    pub value_writer: BinaryValueWriter_1_0<'value, 'top>,
}

impl<'value, 'top> BinaryAnnotatedValueWriter_1_0<'value, 'top> {
    pub fn new(value_writer: BinaryValueWriter_1_0<'value, 'top>) -> (writer: Self)
        ensures
            writer.value_writer.annotations == value_writer.annotations,
            writer.value_writer.allocator == value_writer.allocator,
            *writer.value_writer.encoding_buffer == *old(value_writer.encoding_buffer),
            *final(writer.value_writer.encoding_buffer) == *final(value_writer.encoding_buffer),
    {
        Self { value_writer }
    }

    /// Returns a writer that wraps the value in the given annotations.
    pub fn with_annotations(self, annotations: &'value [SymbolId]) -> (writer:
        BinaryValueWriter_1_0<'value, 'top>)
        ensures
            writer.annotations == annotations,
            writer.allocator == self.value_writer.allocator,
            *writer.encoding_buffer == *old(self.value_writer.encoding_buffer),
            *final(writer.encoding_buffer) == *final(self.value_writer.encoding_buffer),
    {
        BinaryValueWriter_1_0 {
            allocator: self.value_writer.allocator,
            encoding_buffer: self.value_writer.encoding_buffer,
            annotations,
        }
    }

    /// Returns a writer that writes the value as it is.
    pub fn without_annotations(self) -> (writer: BinaryValueWriter_1_0<'value, 'top>)
        ensures
            writer.annotations@.len() == 0,
            writer.allocator == self.value_writer.allocator,
            *writer.encoding_buffer == *old(self.value_writer.encoding_buffer),
            *final(writer.encoding_buffer) == *final(self.value_writer.encoding_buffer),
    {
        BinaryValueWriter_1_0 {
            allocator: self.value_writer.allocator,
            encoding_buffer: self.value_writer.encoding_buffer,
            annotations: &[],
        }
    }
}

} // verus!
