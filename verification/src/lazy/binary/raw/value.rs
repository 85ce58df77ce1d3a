//! A handle on a value that the parser matched and has not decoded yet.

use vstd::prelude::*;
use vstd::utf8::{decode_utf8, valid_utf8};
use crate::binary::decimal::{decimal_parse, read_decimal};
use crate::binary::timestamp::{read_timestamp, timestamp_parse};
use crate::binary::type_descriptor::ion_type_of;
use crate::binary::uint::{be_nat, decode_u64, lemma_be_nat_bound, lemma_pow256_values};
use crate::binary::var_uint::var_uint_parse;
use crate::lazy::binary::encoded_value::EncodedValue;
use crate::lazy::binary::immutable_buffer::ImmutableBuffer;
use crate::lazy::binary::layout::{parse_value, ValueLayout};
use crate::lazy::binary::raw::annotations_iterator::RawBinaryAnnotationsIterator;
use crate::lazy::binary::raw::sequence::{LazyRawBinaryList_1_0, LazyRawBinarySExp_1_0};
use crate::lazy::binary::raw::structure::LazyRawBinaryStruct_1_0;
use crate::lazy::decoder::{HasRange, HasSpan, LazyContainerPrivate};
use crate::lazy::raw_value_ref::{RawValueRef, RawValueView};
use crate::raw_symbol_token::RawSymbolTokenView;
use crate::raw_symbol_token_ref::RawSymbolTokenRef;
use crate::result::{IonError, IonResult, ParseFault};
use crate::text::decode_text;
use crate::types::integer::{FloatBits, Int};
use crate::types::IonType;

verus! {

/// A value in the input: the record of where its parts lie, and the input
/// from its first byte on. Nothing of the value is decoded until it is asked
/// for.
#[derive(Debug, Clone, Copy)]
pub struct LazyRawBinaryValue_1_0<'top> {
    pub encoded_value: EncodedValue,
    pub input: ImmutableBuffer<'top>,
}

impl<'top> LazyRawBinaryValue_1_0<'top> {
    /// The handle describes what the parser finds at the front of its input:
    /// the field ID, if the value has one, and then the value with the layout
    /// that the record holds. The input covers the whole value.
    pub open spec fn wf(&self) -> bool {
        &&& self.encoded_value.wf()
        &&& self.input.wf()
        &&& self.input.spec_offset() == self.encoded_value.spec_start_offset()
        &&& self.encoded_value.total_length <= self.input@.len()
        &&& parse_value(self.input@.skip(self.encoded_value.field_id_length as int)) == Ok::<
            ValueLayout,
            ParseFault,
        >(self.encoded_value.layout())
        &&& self.encoded_value.field_id is Some ==> var_uint_parse(self.input@) == Ok::<
            (nat, nat),
            ParseFault,
        >((self.encoded_value.field_id->Some_0 as nat, self.encoded_value.field_id_length as nat))
    }

    /// The layout of the value.
    pub open spec fn layout(&self) -> ValueLayout {
        self.encoded_value.layout()
    }

    /// The bytes of the value's body.
    pub open spec fn spec_body(&self) -> Seq<u8> {
        let start = self.encoded_value.total_length - self.encoded_value.value_length;
        self.input@.subrange(start, self.encoded_value.total_length as int)
    }

    /// The bytes of the value's annotations, one `VarUInt` symbol ID after
    /// another; empty without annotations.
    pub open spec fn spec_annotations_bytes(&self) -> Seq<u8> {
        let end = self.encoded_value.field_id_length + self.encoded_value.annotations_header_length;
        self.input@.subrange(end - self.encoded_value.annotations_sequence_length, end)
    }

    /// Returns the Ion type of the value.
    pub fn ion_type(&self) -> (t: IonType)
        ensures
            t == self.layout().ion_type,
    {
        self.encoded_value.ion_type
    }

    /// Reports whether the value is a null.
    pub fn is_null(&self) -> (b: bool)
        ensures
            b == self.layout().is_null(),
    {
        self.encoded_value.is_null()
    }

    /// Reports whether the value has annotations.
    pub fn has_annotations(&self) -> (b: bool)
        ensures
            b == (self.layout().annotations_header_length > 0),
    {
        self.encoded_value.has_annotations()
    }

    /// Returns the bytes of the body.
    pub fn value_body(&self) -> (bytes: &'top [u8])
        requires
            self.wf(),
        ensures
            bytes@ == self.spec_body(),
    {
        let start = self.encoded_value.total_length - self.encoded_value.value_length;
        vstd::slice::slice_subrange(self.input.bytes(), start, self.encoded_value.total_length)
    }

    /// Returns the body as a buffer. The body of a container holds its
    /// children.
    pub fn available_body(&self) -> (body: ImmutableBuffer<'top>)
        requires
            self.wf(),
        ensures
            body@ == self.spec_body(),
            body.spec_offset() == self.encoded_value.spec_value_offset(),
            body.wf(),
    {
        let start = self.encoded_value.total_length - self.encoded_value.value_length;
        self.input.slice(start, self.encoded_value.value_length)
    }

    /// Returns the bytes of the annotations as a buffer.
    pub fn annotations_sequence(&self) -> (sequence: ImmutableBuffer<'top>)
        requires
            self.wf(),
        ensures
            sequence@ == self.spec_annotations_bytes(),
            sequence.wf(),
    {
        let end = self.encoded_value.field_id_length + self.encoded_value.annotations_header_length;
        self.input.slice(
            end - self.encoded_value.annotations_sequence_length,
            self.encoded_value.annotations_sequence_length,
        )
    }
}

/// The value that a body spells under the type descriptor `opcode`; `None`
/// when it spells none.
///
/// A length code of 15 makes a null of the type. An integer of type code 3 is
/// the negative of its magnitude, and zero when the magnitude is zero. A
/// float has no body, four bytes or eight.
/// A symbol is a symbol ID of at most eight bytes that a `usize` holds. A
/// string is well-formed UTF-8.
pub open spec fn decode_body(opcode: u8, body: Seq<u8>) -> Option<RawValueView> {
    match ion_type_of(opcode) {
        None => None,
        Some(ion_type) => {
            if opcode % 16 == 15 {
                Some(RawValueView::Null(ion_type))
            } else {
                match ion_type {
                    IonType::Null => Some(RawValueView::Null(IonType::Null)),
                    IonType::Bool => Some(RawValueView::Bool(opcode % 16 == 1)),
                    IonType::Int => {
                        if opcode / 16 == 3 {
                            Some(RawValueView::Int(-(be_nat(body) as int)))
                        } else {
                            Some(RawValueView::Int(be_nat(body) as int))
                        }
                    },
                    IonType::Float => {
                        if body.len() == 0 {
                            Some(RawValueView::Float(FloatBits::Double(0)))
                        } else if body.len() == 4 {
                            Some(RawValueView::Float(FloatBits::Single(be_nat(body) as u32)))
                        } else if body.len() == 8 {
                            Some(RawValueView::Float(FloatBits::Double(be_nat(body) as u64)))
                        } else {
                            None
                        }
                    },
                    IonType::Decimal => match decimal_parse(body) {
                        Some(decimal) => Some(RawValueView::Decimal(decimal)),
                        None => None,
                    },
                    IonType::Timestamp => match timestamp_parse(body) {
                        Some(timestamp) => Some(RawValueView::Timestamp(timestamp)),
                        None => None,
                    },
                    IonType::Symbol => {
                        if body.len() > 8 || be_nat(body) > usize::MAX {
                            None
                        } else {
                            Some(RawValueView::Symbol(RawSymbolTokenView::SymbolId(be_nat(body))))
                        }
                    },
                    IonType::String => {
                        if valid_utf8(body) {
                            Some(RawValueView::String(decode_utf8(body)))
                        } else {
                            None
                        }
                    },
                    IonType::Clob => Some(RawValueView::Clob(body)),
                    IonType::Blob => Some(RawValueView::Blob(body)),
                    IonType::List => Some(RawValueView::List),
                    IonType::SExp => Some(RawValueView::SExp),
                    IonType::Struct => Some(RawValueView::Struct),
                }
            }
        },
    }
}

impl<'top> LazyRawBinaryValue_1_0<'top> {
    /// Returns an iterator over the annotations of the value, which yields
    /// nothing when the value has none.
    pub fn annotations(&self) -> (iterator: RawBinaryAnnotationsIterator<'top>)
        requires
            self.wf(),
        ensures
            iterator@ == self.spec_annotations_bytes(),
            iterator.wf(),
    {
        RawBinaryAnnotationsIterator::new(self.annotations_sequence())
    }

    /// Decodes the value. Scalars are decoded in full; a container comes as
    /// a handle on its children. A body that spells no value of the type is a
    /// decoding error.
    pub fn read(&self) -> (r: IonResult<RawValueRef<'top>>)
        requires
            self.wf(),
        ensures
            match decode_body(self.encoded_value.opcode, self.spec_body()) {
                Some(view) => r is Ok && r->Ok_0@ == view,
                None => r == Err::<RawValueRef<'top>, IonError>(IonError::Decoding),
            },
            r is Ok ==> match r->Ok_0 {
                RawValueRef::Int(i) => i.wf(),
                RawValueRef::Decimal(d) => d.wf(),
                RawValueRef::Timestamp(t) => t.wf(),
                RawValueRef::List(l) => l.sequence.value == *self,
                RawValueRef::SExp(s) => s.sequence.value == *self,
                RawValueRef::Struct(s) => s.value == *self,
                _ => true,
            },
    {
        let ion_type = self.encoded_value.ion_type;
        if self.is_null() {
            return Ok(RawValueRef::Null(ion_type));
        }
        let body = self.value_body();
        match ion_type {
            IonType::Null => Ok(RawValueRef::Null(IonType::Null)),
            IonType::Bool => Ok(RawValueRef::Bool(self.encoded_value.opcode % 16 == 1)),
            IonType::Int => {
                let negative = self.encoded_value.opcode / 16 == 3;
                Ok(RawValueRef::Int(Int::from_sign_and_magnitude(negative, body)))
            },
            IonType::Float => {
                proof {
                    lemma_be_nat_bound(body@);
                    lemma_pow256_values();
                }
                if body.len() == 0 {
                    Ok(RawValueRef::Float(FloatBits::Double(0)))
                } else if body.len() == 4 {
                    Ok(RawValueRef::Float(FloatBits::Single(decode_u64(body) as u32)))
                } else if body.len() == 8 {
                    Ok(RawValueRef::Float(FloatBits::Double(decode_u64(body))))
                } else {
                    Err(IonError::Decoding)
                }
            },
            IonType::Decimal => {
                let decimal = read_decimal(body)?;
                Ok(RawValueRef::Decimal(decimal))
            },
            IonType::Timestamp => {
                let timestamp = read_timestamp(body)?;
                Ok(RawValueRef::Timestamp(timestamp))
            },
            IonType::Symbol => {
                if body.len() > 8 {
                    return Err(IonError::Decoding);
                }
                let symbol_id = decode_u64(body);
                if symbol_id > usize::MAX as u64 {
                    return Err(IonError::Decoding);
                }
                Ok(RawValueRef::Symbol(RawSymbolTokenRef::SymbolId(symbol_id as usize)))
            },
            IonType::String => {
                match decode_text(body) {
                    Some(text) => Ok(RawValueRef::String(text)),
                    None => Err(IonError::Decoding),
                }
            },
            IonType::Clob => Ok(RawValueRef::Clob(body)),
            IonType::Blob => Ok(RawValueRef::Blob(body)),
            IonType::List => Ok(RawValueRef::List(LazyRawBinaryList_1_0::from_value(*self))),
            IonType::SExp => Ok(RawValueRef::SExp(LazyRawBinarySExp_1_0::from_value(*self))),
            IonType::Struct => Ok(RawValueRef::Struct(LazyRawBinaryStruct_1_0::from_value(*self))),
        }
    }
}

impl<'top> HasRange for LazyRawBinaryValue_1_0<'top> {
    open spec fn spec_start(&self) -> int {
        self.encoded_value.header_offset - self.encoded_value.annotations_header_length
    }

    open spec fn spec_end(&self) -> int {
        self.encoded_value.spec_value_end()
    }

    open spec fn has_range(&self) -> bool {
        self.wf()
    }

    fn range(&self) -> (range: core::ops::Range<usize>) {
        let start = self.encoded_value.header_offset - self.encoded_value.annotations_header_length;
        start..self.encoded_value.value_end_exclusive()
    }
}

impl<'top> HasSpan<'top> for LazyRawBinaryValue_1_0<'top> {
    open spec fn spec_span(&self) -> Seq<u8> {
        self.input@.subrange(
            self.encoded_value.field_id_length as int,
            self.encoded_value.total_length as int,
        )
    }

    fn span(&self) -> (bytes: &'top [u8]) {
        vstd::slice::slice_subrange(
            self.input.bytes(),
            self.encoded_value.field_id_length,
            self.encoded_value.total_length,
        )
    }
}

} // verus!
