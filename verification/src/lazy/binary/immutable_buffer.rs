//! A view of input bytes that remembers where in the stream they lie.

use vstd::prelude::*;
use crate::binary::type_descriptor::{is_annotation_opcode, is_nop_opcode, TypeDescriptor};
use crate::binary::var_uint::{lemma_var_uint_parse_size, var_uint_parse, VarUInt};
use crate::lazy::binary::encoded_value::EncodedValue;
use crate::lazy::binary::layout::{
    field_step,
    next_child,
    next_field,
    next_field_after,
    nop_padding,
    parse_annotated,
    parse_length,
    parse_nop_pad,
    parse_unannotated,
    parse_value,
    parse_wrapper,
    FieldStepLayout,
};
use crate::lazy::binary::raw::value::LazyRawBinaryValue_1_0;
use crate::result::{IonError, IonResult, ParseFault};
use crate::types::IonType;

verus! {

/// A slice of input bytes together with the stream offset of its first byte.
///
/// Parsing never changes a buffer: each method that consumes input returns
/// the buffer that is left.
#[derive(Debug, Clone, Copy)]
pub struct ImmutableBuffer<'a> {
    data: &'a [u8],
    offset: usize,
}

/// The value that a parsing step matched, and the input that follows it.
pub type ParseResult<'a, T> = IonResult<(T, ImmutableBuffer<'a>)>;

impl<'a> View for ImmutableBuffer<'a> {
    type V = Seq<u8>;

    /// The bytes of the buffer.
    closed spec fn view(&self) -> Seq<u8> {
        self.data@
    }
}

impl<'a> ImmutableBuffer<'a> {
    /// The stream offset of the buffer's first byte.
    pub closed spec fn spec_offset(&self) -> usize {
        self.offset
    }

    /// The stream offset that follows the buffer's last byte.
    pub open spec fn spec_end(&self) -> int {
        self.spec_offset() + self@.len()
    }

    /// Every stream offset inside the buffer is a `usize`.
    pub open spec fn wf(&self) -> bool {
        self.spec_end() <= usize::MAX
    }

    /// True when `self` is what is left of `whole` after `n` bytes.
    pub open spec fn is_rest_of(&self, whole: ImmutableBuffer<'a>, n: int) -> bool {
        &&& 0 <= n <= whole@.len()
        &&& self@ == whole@.skip(n)
        &&& self.spec_offset() == whole.spec_offset() + n
    }

    /// True when `error` reports `fault` for this buffer: `Decoding` for
    /// malformed input, and for incomplete input `Incomplete` with the stream
    /// offset of the buffer's first byte, where parsing is to start again once
    /// more input is there.
    pub open spec fn fails_with(&self, error: IonError, fault: ParseFault) -> bool {
        match fault {
            ParseFault::Incomplete => error == (IonError::Incomplete {
                offset: self.spec_offset(),
            }),
            ParseFault::Malformed => error == IonError::Decoding,
        }
    }

    /// Moves the offset of an `Incomplete` error to the first byte of this
    /// buffer.
    pub fn at_start(&self, error: IonError) -> (moved: IonError)
        ensures
            moved == match error {
                IonError::Incomplete { .. } => IonError::Incomplete { offset: self.spec_offset() },
                other => other,
            },
    {
        match error {
            IonError::Incomplete { .. } => IonError::Incomplete { offset: self.offset },
            other => other,
        }
    }

    /// Hands a result on, with the offset of an `Incomplete` error moved to
    /// the first byte of this buffer.
    pub fn from_start<T>(&self, result: IonResult<T>) -> (moved: IonResult<T>)
        ensures
            match result {
                Ok(value) => moved == Ok::<T, IonError>(value),
                Err(error) => moved is Err && moved->Err_0 == match error {
                    IonError::Incomplete { .. } => IonError::Incomplete {
                        offset: self.spec_offset(),
                    },
                    other => other,
                },
            },
    {
        match result {
            Ok(value) => Ok(value),
            Err(error) => Err(self.at_start(error)),
        }
    }

    /// A buffer over `data`, which starts the stream.
    pub fn new(data: &'a [u8]) -> (buffer: Self)
        ensures
            buffer@ == data@,
            buffer.spec_offset() == 0,
            buffer.wf(),
    {
        Self::new_with_offset(data, 0)
    }

    /// A buffer over `data`, which lies `offset` bytes into the stream. When
    /// the end of `data` would lie beyond the largest `usize`, the offset is
    /// lowered to the largest one that fits.
    pub fn new_with_offset(data: &'a [u8], offset: usize) -> (buffer: Self)
        ensures
            buffer@ == data@,
            buffer.wf(),
            offset + data@.len() <= usize::MAX ==> buffer.spec_offset() == offset,
    {
        let room = usize::MAX - data.len();
        let offset = if offset > room {
            room
        } else {
            offset
        };
        ImmutableBuffer { data, offset }
    }

    /// Returns the bytes of the buffer.
    pub fn bytes(&self) -> (bytes: &'a [u8])
        ensures
            bytes@ == self@,
    {
        self.data
    }

    /// Returns the stream offset of the buffer's first byte.
    #[verifier::when_used_as_spec(spec_offset)]
    pub fn offset(&self) -> (offset: usize)
        ensures
            offset == self.spec_offset(),
    {
        self.offset
    }

    /// Returns the number of bytes in the buffer.
    pub fn len(&self) -> (len: usize)
        ensures
            len == self@.len(),
    {
        self.data.len()
    }

    /// Reports whether the buffer holds no bytes.
    pub fn is_empty(&self) -> (empty: bool)
        ensures
            empty == (self@.len() == 0),
    {
        self.data.len() == 0
    }

    /// Returns the stream offsets of the buffer's first byte and of the byte
    /// after its last.
    pub fn range(&self) -> (range: core::ops::Range<usize>)
        requires
            self.wf(),
        ensures
            range.start == self.spec_offset(),
            range.end == self.spec_end(),
    {
        self.offset..self.offset + self.data.len()
    }

    /// Returns the `length` bytes that start `offset` bytes into the buffer.
    pub fn slice(&self, offset: usize, length: usize) -> (slice: ImmutableBuffer<'a>)
        requires
            self.wf(),
            offset + length <= self@.len(),
        ensures
            slice@ == self@.subrange(offset as int, offset + length),
            slice.spec_offset() == self.spec_offset() + offset,
            slice.wf(),
    {
        ImmutableBuffer {
            data: vstd::slice::slice_subrange(self.data, offset, offset + length),
            offset: self.offset + offset,
        }
    }

    /// Returns what is left of the buffer after its first `offset` bytes.
    pub fn slice_to_end(&self, offset: usize) -> (slice: ImmutableBuffer<'a>)
        requires
            self.wf(),
            offset <= self@.len(),
        ensures
            slice.is_rest_of(*self, offset as int),
            slice.wf(),
    {
        ImmutableBuffer {
            data: vstd::slice::slice_subrange(self.data, offset, self.data.len()),
            offset: self.offset + offset,
        }
    }

    /// Returns what is left of the buffer after its first `num_bytes` bytes.
    pub fn consume(&self, num_bytes: usize) -> (rest: ImmutableBuffer<'a>)
        requires
            self.wf(),
            num_bytes <= self@.len(),
        ensures
            rest.is_rest_of(*self, num_bytes as int),
            rest.wf(),
    {
        self.slice_to_end(num_bytes)
    }

    /// Returns the first byte of the buffer, if there is one.
    pub fn peek_next_byte(&self) -> (byte: Option<u8>)
        ensures
            byte == if self@.len() == 0 {
                None
            } else {
                Some(self@[0])
            },
    {
        if self.data.len() == 0 {
            None
        } else {
            Some(self.data[0])
        }
    }

    /// Returns the first byte of the buffer as a type descriptor; the input is
    /// incomplete when there is none.
    pub fn peek_type_descriptor(&self) -> (r: IonResult<TypeDescriptor>)
        ensures
            self@.len() > 0 ==> r == Ok::<TypeDescriptor, IonError>(
                TypeDescriptor { opcode: self@[0] },
            ),
            self@.len() == 0 ==> r == Err::<TypeDescriptor, IonError>(
                IonError::Incomplete { offset: self.spec_offset() },
            ),
    {
        if self.data.len() == 0 {
            return Err(IonError::Incomplete { offset: self.offset });
        }
        Ok(TypeDescriptor::new(self.data[0]))
    }

    /// Reads a `VarUInt` from the front of the buffer.
    pub fn read_var_uint(&self) -> (r: ParseResult<'a, VarUInt>)
        requires
            self.wf(),
        ensures
            match var_uint_parse(self@) {
                Ok((value, size)) => r is Ok && r->Ok_0.0.spec_value() == value
                    && r->Ok_0.0.spec_size_in_bytes() == size && r->Ok_0.1.is_rest_of(
                    *self,
                    size as int,
                ) && r->Ok_0.1.wf(),
                Err(fault) => r is Err && self.fails_with(r->Err_0, fault),
            },
    {
        match VarUInt::read(self.data) {
            Ok(var_uint) => {
                let rest = self.consume(var_uint.size_in_bytes());
                Ok((var_uint, rest))
            },
            Err(IonError::Incomplete { offset: _ }) => Err(
                IonError::Incomplete { offset: self.offset },
            ),
            Err(error) => Err(error),
        }
    }

    /// Reads the length that `length_code` announces: nothing for a code
    /// below 14, a `VarUInt` for 14, and zero for 15. The size of the result
    /// is the number of bytes that were read.
    pub fn read_length(&self, length_code: u8) -> (r: ParseResult<'a, VarUInt>)
        requires
            self.wf(),
            length_code < 16,
        ensures
            match parse_length(self@, length_code) {
                Ok((value, size)) => r is Ok && r->Ok_0.0.spec_value() == value
                    && r->Ok_0.0.spec_size_in_bytes() == size && r->Ok_0.1.is_rest_of(
                    *self,
                    size as int,
                ) && r->Ok_0.1.wf(),
                Err(fault) => r is Err && self.fails_with(r->Err_0, fault),
            },
    {
        if length_code == 15 {
            assert(self@.skip(0) =~= self@);
            Ok((VarUInt::new(0, 0), *self))
        } else if length_code == 14 {
            self.read_var_uint()
        } else {
            assert(self@.skip(0) =~= self@);
            Ok((VarUInt::new(length_code as u64, 0), *self))
        }
    }

    /// Reads the NOP pad at the front of the buffer, which starts with a NOP
    /// type descriptor, and returns its length.
    pub fn read_nop_pad(&self) -> (r: ParseResult<'a, usize>)
        requires
            self.wf(),
            self@.len() > 0,
            is_nop_opcode(self@[0]),
        ensures
            match parse_nop_pad(self@) {
                Ok(pad) => r is Ok && r->Ok_0.0 == pad && r->Ok_0.1.is_rest_of(*self, pad as int)
                    && r->Ok_0.1.wf() && pad >= 1,
                Err(fault) => r is Err && self.fails_with(r->Err_0, fault),
            },
    {
        let type_descriptor = TypeDescriptor::new(self.data[0]);
        let after_descriptor = self.consume(1);
        let (length, remaining) = self.from_start(
            after_descriptor.read_length(type_descriptor.length_code()),
        )?;
        if length.value() > remaining.len() as u64 {
            return Err(IonError::Incomplete { offset: self.offset });
        }
        let padding_length = length.value() as usize;
        let rest = remaining.consume(padding_length);
        assert(rest@ =~= self@.skip(1 + length.spec_size_in_bytes() + padding_length));
        Ok((1 + length.size_in_bytes() + padding_length, rest))
    }

    /// Skips every NOP pad at the front of the buffer and returns the number
    /// of bytes skipped.
    pub fn consume_nop_padding(&self) -> (r: ParseResult<'a, usize>)
        requires
            self.wf(),
        ensures
            match nop_padding(self@) {
                Ok(padding) => r is Ok && r->Ok_0.0 == padding && r->Ok_0.1.is_rest_of(
                    *self,
                    padding as int,
                ) && r->Ok_0.1.wf() && (r->Ok_0.1@.len() > 0 ==> !is_nop_opcode(r->Ok_0.1@[0])),
                Err(fault) => r is Err && self.fails_with(r->Err_0, fault),
            },
    {
        let mut buffer = *self;
        let mut skipped: usize = 0;
        assert(self@.skip(0) =~= self@);
        while !buffer.is_empty() && TypeDescriptor::new(buffer.data[0]).is_nop()
            invariant
                self.wf(),
                buffer.wf(),
                buffer.is_rest_of(*self, skipped as int),
                match nop_padding(buffer@) {
                    Ok(more) => nop_padding(self@) == Ok::<nat, ParseFault>((skipped
                        + more) as nat),
                    Err(fault) => nop_padding(self@) == Err::<nat, ParseFault>(fault),
                },
            decreases buffer@.len(),
        {
            match buffer.read_nop_pad() {
                Ok((pad, rest)) => {
                    assert(rest@ =~= self@.skip(skipped + pad));
                    skipped += pad;
                    buffer = rest;
                },
                Err(error) => {
                    return Err(self.at_start(error));
                },
            }
        }
        Ok((skipped, buffer))
    }
}

/// What the parser learns from an annotations wrapper's own bytes.
#[derive(Debug, Clone, Copy)]
pub struct AnnotationsWrapper {
    /// The number of bytes from the wrapper's type descriptor to the end of
    /// the field that holds the length of the annotations.
    pub prefix_length: usize,
    /// The number of bytes of the annotations.
    pub sequence_length: u64,
    /// The number of bytes that the wrapper leaves for the wrapped value.
    pub expected_value_length: u64,
}

impl<'a> ImmutableBuffer<'a> {
    /// Reads the own bytes of the annotations wrapper at the front of the
    /// buffer, up to the annotations, and returns the input that starts with
    /// the annotations.
    pub fn read_annotations_wrapper(&self) -> (r: ParseResult<'a, AnnotationsWrapper>)
        requires
            self.wf(),
            self@.len() > 0,
            is_annotation_opcode(self@[0]),
        ensures
            match parse_wrapper(self@) {
                Ok(wrapper) => r is Ok && r->Ok_0.0.prefix_length == 1
                    + wrapper.declared_length_size + wrapper.sequence_length_size
                    && r->Ok_0.0.sequence_length == wrapper.sequence_length
                    && r->Ok_0.0.expected_value_length == wrapper.expected_value_length()
                    && r->Ok_0.1.is_rest_of(*self, r->Ok_0.0.prefix_length as int)
                    && r->Ok_0.1.wf(),
                Err(fault) => r is Err && self.fails_with(r->Err_0, fault),
            },
    {
        let type_descriptor = TypeDescriptor::new(self.data[0]);
        let length_code = type_descriptor.length_code();
        if length_code == 15 {
            return Err(IonError::Decoding);
        }
        let after_descriptor = self.consume(1);
        // The length of the annotations and the value together.
        let (declared_length, after_declared_length) = self.from_start(after_descriptor.read_length(length_code))?;
        assert(after_declared_length@ =~= self@.skip(1 + declared_length.spec_size_in_bytes()));
        proof {
            lemma_var_uint_parse_size(after_declared_length@);
        }
        // The length of the annotations alone.
        let (sequence_length, after_sequence_length) = self.from_start(after_declared_length.read_var_uint())?;
        if sequence_length.value() == 0 {
            return Err(IonError::Decoding);
        }
        if sequence_length.value() >= declared_length.value() {
            return Err(IonError::Decoding);
        }
        let room: u64 = declared_length.value() - sequence_length.value();
        if room <= sequence_length.size_in_bytes() as u64 {
            // Nothing is left for a value.
            return Err(IonError::Decoding);
        }
        let prefix_length = 1 + declared_length.size_in_bytes() + sequence_length.size_in_bytes();
        assert(after_sequence_length@ =~= self@.skip(prefix_length as int));
        let wrapper = AnnotationsWrapper {
            prefix_length,
            sequence_length: sequence_length.value(),
            expected_value_length: room - sequence_length.size_in_bytes() as u64,
        };
        Ok((wrapper, after_sequence_length))
    }

    /// Matches the value without annotations at the front of the buffer.
    #[verifier::rlimit(50)]
    pub fn read_value_without_annotations(&self) -> (r: IonResult<LazyRawBinaryValue_1_0<'a>>)
        requires
            self.wf(),
        ensures
            match parse_unannotated(self@) {
                Ok(layout) => r is Ok && r->Ok_0.encoded_value.layout() == layout
                    && r->Ok_0.encoded_value.field_id is None
                    && r->Ok_0.encoded_value.field_id_length == 0
                    && r->Ok_0.encoded_value.header_offset == self.spec_offset()
                    && r->Ok_0.encoded_value.wf() && r->Ok_0.encoded_value.total_length
                    == layout.total_length() && layout.total_length() <= self@.len()
                    && r->Ok_0.input == *self,
                Err(fault) => r is Err && self.fails_with(r->Err_0, fault),
            },
    {
        let type_descriptor = self.peek_type_descriptor()?;
        let ion_type = match type_descriptor.ion_type() {
            Some(ion_type) => ion_type,
            None => {
                return Err(IonError::Decoding);
            },
        };
        let length_code = type_descriptor.length_code();
        let effective_code: u8 = match ion_type {
            IonType::Null => 0,
            IonType::Bool => {
                if !(length_code == 0 || length_code == 1 || length_code == 15) {
                    return Err(IonError::Decoding);
                }
                0
            },
            IonType::Float => {
                if !(length_code == 0 || length_code == 4 || length_code == 8 || length_code
                    == 15) {
                    return Err(IonError::Decoding);
                }
                length_code
            },
            IonType::Struct => {
                // `L` = 1 marks a struct with ordered fields, whose length
                // follows as a `VarUInt`.
                if length_code == 1 {
                    14
                } else {
                    length_code
                }
            },
            _ => length_code,
        };
        let (length, remaining) = self.from_start(self.consume(1).read_length(effective_code))?;
        match ion_type {
            IonType::Timestamp => {
                if length_code != 15 && length.value() <= 1 {
                    return Err(IonError::Decoding);
                }
            },
            IonType::Struct => {
                if length_code == 1 && length.value() == 0 {
                    return Err(IonError::Decoding);
                }
            },
            _ => {},
        }
        if length.value() > remaining.len() as u64 {
            return Err(IonError::Incomplete { offset: self.offset });
        }
        let value_length = length.value() as usize;
        let length_length = length.size_in_bytes();
        let encoded_value = EncodedValue {
            opcode: type_descriptor.opcode,
            ion_type,
            field_id_length: 0,
            field_id: None,
            annotations_header_length: 0,
            annotations_sequence_length: 0,
            header_offset: self.offset,
            length_length,
            value_length,
            total_length: 1 + length_length + value_length,
        };
        Ok(LazyRawBinaryValue_1_0 { encoded_value, input: *self })
    }

    /// Matches the annotated value at the front of the buffer, which starts
    /// with the type descriptor of an annotations wrapper.
    #[verifier::rlimit(50)]
    pub fn read_annotated_value(&self) -> (r: IonResult<LazyRawBinaryValue_1_0<'a>>)
        requires
            self.wf(),
            self@.len() > 0,
            is_annotation_opcode(self@[0]),
        ensures
            match parse_annotated(self@) {
                Ok(layout) => r is Ok && r->Ok_0.encoded_value.layout() == layout
                    && r->Ok_0.encoded_value.field_id is None
                    && r->Ok_0.encoded_value.field_id_length == 0
                    && r->Ok_0.encoded_value.header_offset == self.spec_offset()
                    + layout.annotations_header_length && r->Ok_0.encoded_value.wf()
                    && r->Ok_0.encoded_value.total_length == layout.total_length()
                    && layout.total_length() <= self@.len() && r->Ok_0.input == *self,
                Err(fault) => r is Err && self.fails_with(r->Err_0, fault),
            },
    {
        let (wrapper, after_prefix) = self.read_annotations_wrapper()?;
        if wrapper.sequence_length >= after_prefix.len() as u64 {
            // The input ends before the wrapped value starts.
            return Err(IonError::Incomplete { offset: self.offset });
        }
        let sequence_length = wrapper.sequence_length as usize;
        let after_annotations = after_prefix.consume(sequence_length);
        let header_length = wrapper.prefix_length + sequence_length;
        assert(after_annotations@ =~= self@.skip(header_length as int));
        let type_descriptor = TypeDescriptor::new(after_annotations.data[0]);
        if type_descriptor.is_annotation_wrapper() || type_descriptor.is_nop() {
            return Err(IonError::Decoding);
        }
        let mut lazy_value = self.from_start(after_annotations.read_value_without_annotations())?;
        if lazy_value.encoded_value.total_length as u64 != wrapper.expected_value_length {
            // The wrapped value does not end where the wrapper says.
            return Err(IonError::Decoding);
        }
        lazy_value.encoded_value.annotations_header_length = header_length;
        lazy_value.encoded_value.annotations_sequence_length = sequence_length;
        lazy_value.encoded_value.total_length = lazy_value.encoded_value.total_length
            + header_length;
        lazy_value.input = *self;
        Ok(lazy_value)
    }

    /// Matches the value at the front of the buffer, with its annotations if
    /// it has any.
    pub fn read_value(&self) -> (r: IonResult<LazyRawBinaryValue_1_0<'a>>)
        requires
            self.wf(),
        ensures
            match parse_value(self@) {
                Ok(layout) => r is Ok && r->Ok_0.layout() == layout
                    && r->Ok_0.encoded_value.field_id is None && r->Ok_0.wf() && r->Ok_0.input
                    == *self,
                Err(fault) => r is Err && self.fails_with(r->Err_0, fault),
            },
    {
        let type_descriptor = self.peek_type_descriptor()?;
        assert(self@.skip(0) =~= self@);
        if type_descriptor.is_annotation_wrapper() {
            self.read_annotated_value()
        } else {
            self.read_value_without_annotations()
        }
    }

    /// Matches the next child of a list or an s-expression whose body starts
    /// the buffer: the first value after any NOP padding. The result is `None`
    /// when no value is left. The handle's input starts at the value.
    #[verifier::rlimit(50)]
    pub fn peek_sequence_value(&self) -> (r: IonResult<Option<LazyRawBinaryValue_1_0<'a>>>)
        requires
            self.wf(),
        ensures
            match next_child(self@) {
                Ok(None) => r == Ok::<Option<LazyRawBinaryValue_1_0<'a>>, IonError>(None),
                Ok(Some(child)) => r is Ok && r->Ok_0 is Some && r->Ok_0->Some_0.layout()
                    == child.value && r->Ok_0->Some_0.encoded_value.field_id is None
                    && r->Ok_0->Some_0.wf() && r->Ok_0->Some_0.input.is_rest_of(
                    *self,
                    child.padding as int,
                ) && child.consumed() <= self@.len(),
                Err(fault) => r is Err && self.fails_with(r->Err_0, fault),
            },
    {
        let (_padding, input) = self.consume_nop_padding()?;
        if input.is_empty() {
            return Ok(None);
        }
        let lazy_value = self.from_start(input.read_value())?;
        Ok(Some(lazy_value))
    }

    /// Matches what stands at the front of a struct body: a field, a NOP
    /// field, or nothing.
    #[verifier::rlimit(50)]
    pub fn read_field_step(&self) -> (r: IonResult<FieldStep<'a>>)
        requires
            self.wf(),
        ensures
            match field_step(self@) {
                Ok(FieldStepLayout::End) => r is Ok && r->Ok_0 is End,
                Ok(FieldStepLayout::Pad { length }) => {
                    &&& r is Ok
                    &&& r->Ok_0 is Pad
                    &&& r->Ok_0->Pad_0 == length
                    &&& 1 <= length <= self@.len()
                    &&& r->Ok_0->Pad_1.is_rest_of(*self, length as int)
                    &&& r->Ok_0->Pad_1.wf()
                },
                Ok(FieldStepLayout::Field(field)) => {
                    &&& r is Ok
                    &&& r->Ok_0 is Field
                    &&& r->Ok_0->Field_0.layout() == field.value
                    &&& r->Ok_0->Field_0.encoded_value.field_id == Some(field.field_id as usize)
                    &&& field.field_id <= usize::MAX
                    &&& r->Ok_0->Field_0.encoded_value.field_id_length == field.field_id_length
                    &&& r->Ok_0->Field_0.wf()
                    &&& r->Ok_0->Field_0.input == *self
                    &&& field.consumed() <= self@.len()
                },
                Err(fault) => r is Err && self.fails_with(r->Err_0, fault),
            },
    {
        if self.is_empty() {
            return Ok(FieldStep::End);
        }
        proof {
            lemma_var_uint_parse_size(self@);
        }
        let (field_id_var_uint, after_field_id) = self.read_var_uint()?;
        let field_id_length = field_id_var_uint.size_in_bytes();
        if after_field_id.is_empty() {
            // A field ID with no value after it.
            return Err(IonError::Incomplete { offset: self.offset });
        }
        let type_descriptor = TypeDescriptor::new(after_field_id.data[0]);
        if type_descriptor.is_nop() {
            // A NOP field: the field ID and the padding.
            let (pad, rest) = self.from_start(after_field_id.read_nop_pad())?;
            assert(rest@ =~= self@.skip(field_id_length + pad));
            return Ok(FieldStep::Pad(field_id_length + pad, rest));
        }
        if field_id_var_uint.value() > usize::MAX as u64 {
            return Err(IonError::Decoding);
        }
        let field_id = field_id_var_uint.value() as usize;
        let mut lazy_value = self.from_start(after_field_id.read_value())?;
        lazy_value.encoded_value.field_id = Some(field_id);
        lazy_value.encoded_value.field_id_length = field_id_length;
        lazy_value.encoded_value.total_length = lazy_value.encoded_value.total_length
            + field_id_length;
        lazy_value.input = *self;
        Ok(FieldStep::Field(lazy_value))
    }

    /// Matches the next field of a struct whose body starts the buffer: the
    /// first field ID that a value follows, after any NOP fields. The result is
    /// `None` when no field is left. The handle's input starts at the field ID.
    #[verifier::rlimit(50)]
    pub fn peek_field(&self) -> (r: IonResult<Option<LazyRawBinaryValue_1_0<'a>>>)
        requires
            self.wf(),
        ensures
            match next_field(self@) {
                Ok(None) => r == Ok::<Option<LazyRawBinaryValue_1_0<'a>>, IonError>(None),
                Ok(Some(field)) => r is Ok && r->Ok_0 is Some && r->Ok_0->Some_0.layout()
                    == field.value && r->Ok_0->Some_0.encoded_value.field_id == Some(
                    field.field_id as usize,
                ) && field.field_id <= usize::MAX
                    && r->Ok_0->Some_0.encoded_value.field_id_length == field.field_id_length
                    && r->Ok_0->Some_0.wf() && r->Ok_0->Some_0.input.is_rest_of(
                    *self,
                    field.padding as int,
                ) && field.consumed() <= self@.len(),
                Err(fault) => r is Err && self.fails_with(r->Err_0, fault),
            },
    {
        let mut input = *self;
        let mut padding: usize = 0;
        assert(self@.skip(0) =~= self@);
        loop
            invariant
                self.wf(),
                input.wf(),
                input.is_rest_of(*self, padding as int),
                next_field_after(input@, padding as nat) == next_field(self@),
            decreases input@.len(),
        {
            match input.read_field_step() {
                Ok(FieldStep::End) => {
                    return Ok(None);
                },
                Ok(FieldStep::Pad(length, rest)) => {
                    assert(rest@ =~= self@.skip(padding + length));
                    padding = padding + length;
                    input = rest;
                },
                Ok(FieldStep::Field(lazy_value)) => {
                    return Ok(Some(lazy_value));
                },
                Err(error) => {
                    return Err(self.at_start(error));
                },
            }
        }
    }
}

/// What the parser found at the front of a struct body.
#[derive(Debug, Clone, Copy)]
pub enum FieldStep<'a> {
    /// Nothing: the body has ended.
    End,
    /// A NOP field with its length, and the input that follows it.
    Pad(usize, ImmutableBuffer<'a>),
    /// A field.
    Field(LazyRawBinaryValue_1_0<'a>),
}

} // verus!
