//! Values of Ion 1.1 binary streams.

use vstd::prelude::*;
use vstd::utf8::{decode_utf8, valid_utf8};
use crate::ion_1_1::alt::{decode_var_uint, flex_uint_parse};
use crate::lazy::binary::encoded_value::EncodedValue;
use crate::lazy::binary::immutable_buffer::ImmutableBuffer;
use crate::lazy::binary::layout::ValueLayout;
use crate::lazy::binary::raw::v1_1::fixed_int::{decode_fixed_int, fixed_int};
use crate::lazy::raw_value_ref::{RawValueRef, RawValueView};
use crate::result::{IonError, IonResult, ParseFault};
use crate::text::decode_text;
use crate::types::IonType;

verus! {

/// The opcode of `null.null`.
pub const OPCODE_NULL: u8 = 0xEA;

/// The opcode of NOP padding of one byte.
pub const OPCODE_NOP: u8 = 0xEC;

/// The opcode of NOP padding whose length follows.
pub const OPCODE_NOP_WITH_LENGTH: u8 = 0xED;

/// The Ion type of the value that an Ion 1.1 opcode starts; `None` for the
/// opcodes that the reader refuses.
///
/// `0x50` to `0x58` are integers of none to eight bytes, and `0xF5` is an
/// integer whose length follows. `0x5E` and `0x5F` are true and false. `0x80`
/// to `0x8F` are strings of none to fifteen bytes, and `0xF8` is a string
/// whose length follows. `0xEA` is `null.null`.
pub open spec fn ion_type_of_1_1(opcode: u8) -> Option<IonType> {
    if 0x50 <= opcode <= 0x58 || opcode == 0xF5 {
        Some(IonType::Int)
    } else if opcode == 0x5E || opcode == 0x5F {
        Some(IonType::Bool)
    } else if 0x80 <= opcode <= 0x8F || opcode == 0xF8 {
        Some(IonType::String)
    } else if opcode == 0xEA {
        Some(IonType::Null)
    } else {
        None
    }
}

/// True for the opcodes whose length follows them.
pub open spec fn has_length_field(opcode: u8) -> bool {
    opcode == 0xF5 || opcode == 0xF8
}

/// The length of the body that an opcode without a length field announces.
pub open spec fn inline_length(opcode: u8) -> nat {
    if 0x50 <= opcode <= 0x58 {
        (opcode - 0x50) as nat
    } else if 0x80 <= opcode <= 0x8F {
        (opcode - 0x80) as nat
    } else {
        0
    }
}

/// The length that follows an opcode, and the number of bytes that spell it.
/// A length that the input cuts short is incomplete.
pub open spec fn parse_length_1_1(s: Seq<u8>) -> Result<(nat, nat), ParseFault> {
    if s.len() == 0 {
        Err(ParseFault::Incomplete)
    } else {
        match flex_uint_parse(s) {
            Err(fault) => Err(ParseFault::Malformed),
            Ok((length, size)) => if size > s.len() {
                Err(ParseFault::Incomplete)
            } else {
                Ok((length as nat, size))
            },
        }
    }
}

/// The layout of the Ion 1.1 value at the front of `s`.
pub open spec fn parse_value_1_1(s: Seq<u8>) -> Result<ValueLayout, ParseFault> {
    if s.len() == 0 {
        Err(ParseFault::Incomplete)
    } else {
        match ion_type_of_1_1(s[0]) {
            None => Err(ParseFault::Malformed),
            Some(ion_type) => {
                let length = if has_length_field(s[0]) {
                    parse_length_1_1(s.skip(1))
                } else {
                    Ok((inline_length(s[0]), 0nat))
                };
                match length {
                    Err(fault) => Err(fault),
                    Ok((length, size)) => if 1 + size + length > s.len() {
                        Err(ParseFault::Incomplete)
                    } else {
                        Ok(
                            ValueLayout {
                                opcode: s[0],
                                ion_type,
                                annotations_header_length: 0,
                                annotations_sequence_length: 0,
                                length_length: size,
                                value_length: length,
                            },
                        )
                    },
                }
            },
        }
    }
}

/// The length of the NOP pad at the front of `s`, which starts with `0xEC`
/// or `0xED`.
pub open spec fn parse_nop_pad_1_1(s: Seq<u8>) -> Result<nat, ParseFault> {
    if s[0] == 0xEC {
        Ok(1)
    } else {
        match parse_length_1_1(s.skip(1)) {
            Err(fault) => Err(fault),
            Ok((length, size)) => if 1 + size + length > s.len() {
                Err(ParseFault::Incomplete)
            } else {
                Ok(1 + size + length)
            },
        }
    }
}

/// The number of bytes of NOP padding at the front of `s`.
pub open spec fn nop_padding_1_1(s: Seq<u8>) -> Result<nat, ParseFault>
    decreases s.len(),
{
    if s.len() == 0 || !(s[0] == 0xEC || s[0] == 0xED) {
        Ok(0)
    } else {
        match parse_nop_pad_1_1(s) {
            Err(fault) => Err(fault),
            Ok(pad) => match nop_padding_1_1(s.skip(pad as int)) {
                Err(fault) => Err(fault),
                Ok(more) => Ok(pad + more),
            },
        }
    }
}

/// The value that a body spells under the Ion 1.1 opcode `opcode`; `None`
/// when it spells none.
pub open spec fn decode_body_1_1(opcode: u8, body: Seq<u8>) -> Option<RawValueView> {
    match ion_type_of_1_1(opcode) {
        Some(IonType::Int) => Some(RawValueView::Int(fixed_int(body))),
        Some(IonType::Bool) => Some(RawValueView::Bool(opcode == 0x5E)),
        Some(IonType::String) => if valid_utf8(body) {
            Some(RawValueView::String(decode_utf8(body)))
        } else {
            None
        },
        Some(IonType::Null) => Some(RawValueView::Null(IonType::Null)),
        _ => None,
    }
}

/// A value in an Ion 1.1 stream: the record of where its parts lie, and the
/// input from its first byte on.
#[derive(Debug, Clone, Copy)]
pub struct LazyRawBinaryValue_1_1<'top> {
    pub encoded_value: EncodedValue,
    pub input: ImmutableBuffer<'top>,
}

impl<'top> LazyRawBinaryValue_1_1<'top> {
    /// The layout of the value.
    pub open spec fn layout(&self) -> ValueLayout {
        self.encoded_value.layout()
    }

    /// The handle describes the value that the parser finds at the front of
    /// its input, and the input covers the whole value.
    pub open spec fn wf(&self) -> bool {
        &&& self.input.wf()
        &&& self.encoded_value.header_offset == self.input.spec_offset()
        &&& self.encoded_value.field_id is None
        &&& self.encoded_value.field_id_length == 0
        &&& self.encoded_value.total_length == self.layout().total_length()
        &&& self.encoded_value.total_length <= self.input@.len()
        &&& parse_value_1_1(self.input@) == Ok::<ValueLayout, ParseFault>(self.layout())
    }

    /// The bytes of the value's body.
    pub open spec fn spec_body(&self) -> Seq<u8> {
        let start = self.encoded_value.total_length - self.encoded_value.value_length;
        self.input@.subrange(start, self.encoded_value.total_length as int)
    }

    /// Returns the Ion type of the value.
    pub fn ion_type(&self) -> (t: IonType)
        ensures
            t == self.layout().ion_type,
    {
        self.encoded_value.ion_type
    }

    /// Reports whether the value is a null.
    pub fn is_null(&self) -> (b: bool)
        ensures
            b == (self.layout().opcode == 0xEA),
    {
        self.encoded_value.opcode == OPCODE_NULL
    }

    /// Returns the bytes of the body.
    pub fn value_body(&self) -> (bytes: &'top [u8])
        requires
            self.wf(),
        ensures
            bytes@ == self.spec_body(),
    {
        let start = self.encoded_value.total_length - self.encoded_value.value_length;
        vstd::slice::slice_subrange(self.input.bytes(), start, self.encoded_value.total_length)
    }

    /// Decodes the value. A string that is not UTF-8 is a decoding error.
    pub fn read(&self) -> (r: IonResult<RawValueRef<'top>>)
        requires
            self.wf(),
        ensures
            match decode_body_1_1(self.encoded_value.opcode, self.spec_body()) {
                Some(view) => r is Ok && r->Ok_0@ == view,
                None => r is Err && r->Err_0 == IonError::Decoding,
            },
            r is Ok && r->Ok_0 is Int ==> r->Ok_0->Int_0.wf(),
    {
        let body = self.value_body();
        match self.encoded_value.ion_type {
            IonType::Int => Ok(RawValueRef::Int(decode_fixed_int(body))),
            IonType::Bool => Ok(RawValueRef::Bool(self.encoded_value.opcode == 0x5E)),
            IonType::String => match decode_text(body) {
                Some(text) => Ok(RawValueRef::String(text)),
                None => Err(IonError::Decoding),
            },
            IonType::Null => Ok(RawValueRef::Null(IonType::Null)),
            _ => Err(IonError::Decoding),
        }
    }
}

impl<'a> ImmutableBuffer<'a> {
    /// Reads an Ion 1.1 length from the front of the buffer.
    pub fn read_length_1_1(&self) -> (r: IonResult<(usize, usize)>)
        requires
            self.wf(),
        ensures
            match parse_length_1_1(self@) {
                Ok((length, size)) => {
                    &&& 1 <= size <= self@.len()
                    &&& if length <= usize::MAX {
                        r == Ok::<(usize, usize), IonError>((length as usize, size as usize))
                    } else {
                        r is Err && self.fails_with(r->Err_0, ParseFault::Incomplete)
                    }
                },
                Err(ParseFault::Incomplete) => r is Err && self.fails_with(
                    r->Err_0,
                    ParseFault::Incomplete,
                ),
                Err(ParseFault::Malformed) => r is Err && r->Err_0 == IonError::Decoding,
            },
    {
        if self.is_empty() {
            return Err(IonError::Incomplete { offset: self.offset() });
        }
        let (size, length) = match decode_var_uint(self.bytes()) {
            Ok(decoded) => decoded,
            Err(_) => {
                return Err(IonError::Decoding);
            },
        };
        if size > self.len() {
            return Err(IonError::Incomplete { offset: self.offset() });
        }
        if length > usize::MAX as u64 {
            // No input is that long.
            return Err(IonError::Incomplete { offset: self.offset() });
        }
        Ok((length as usize, size))
    }

    /// Matches the Ion 1.1 value at the front of the buffer.
    #[verifier::rlimit(50)]
    pub fn read_value_1_1(&self) -> (r: IonResult<LazyRawBinaryValue_1_1<'a>>)
        requires
            self.wf(),
        ensures
            match parse_value_1_1(self@) {
                Ok(layout) => r is Ok && r->Ok_0.layout() == layout && r->Ok_0.wf() && r->Ok_0.input
                    == *self,
                Err(ParseFault::Incomplete) => r is Err && self.fails_with(
                    r->Err_0,
                    ParseFault::Incomplete,
                ),
                Err(ParseFault::Malformed) => r is Err && r->Err_0 == IonError::Decoding,
            },
    {
        let opcode = match self.peek_next_byte() {
            Some(opcode) => opcode,
            None => {
                return Err(IonError::Incomplete { offset: self.offset() });
            },
        };
        let ion_type = if (0x50 <= opcode && opcode <= 0x58) || opcode == 0xF5 {
            IonType::Int
        } else if opcode == 0x5E || opcode == 0x5F {
            IonType::Bool
        } else if (0x80 <= opcode && opcode <= 0x8F) || opcode == 0xF8 {
            IonType::String
        } else if opcode == OPCODE_NULL {
            IonType::Null
        } else {
            return Err(IonError::Decoding);
        };
        let after_opcode = self.consume(1);
        let (value_length, length_length) = if opcode == 0xF5 || opcode == 0xF8 {
            self.from_start(after_opcode.read_length_1_1())?
        } else if 0x50 <= opcode && opcode <= 0x58 {
            ((opcode - 0x50) as usize, 0)
        } else if 0x80 <= opcode && opcode <= 0x8F {
            ((opcode - 0x80) as usize, 0)
        } else {
            (0, 0)
        };
        if value_length > after_opcode.len() - length_length {
            return Err(IonError::Incomplete { offset: self.offset() });
        }
        let encoded_value = EncodedValue {
            opcode,
            ion_type,
            field_id_length: 0,
            field_id: None,
            annotations_header_length: 0,
            annotations_sequence_length: 0,
            header_offset: self.offset(),
            length_length,
            value_length,
            total_length: 1 + length_length + value_length,
        };
        Ok(LazyRawBinaryValue_1_1 { encoded_value, input: *self })
    }

    /// Reads the Ion 1.1 NOP pad at the front of the buffer, which starts
    /// with `0xEC` or `0xED`, and returns its length.
    pub fn read_nop_pad_1_1(&self) -> (r: IonResult<(usize, ImmutableBuffer<'a>)>)
        requires
            self.wf(),
            self@.len() > 0,
            self@[0] == 0xEC || self@[0] == 0xED,
        ensures
            match parse_nop_pad_1_1(self@) {
                Ok(pad) => r is Ok && r->Ok_0.0 == pad && r->Ok_0.1.is_rest_of(*self, pad as int)
                    && r->Ok_0.1.wf() && pad >= 1,
                Err(ParseFault::Incomplete) => r is Err && self.fails_with(
                    r->Err_0,
                    ParseFault::Incomplete,
                ),
                Err(ParseFault::Malformed) => r is Err && r->Err_0 == IonError::Decoding,
            },
    {
        let opcode = self.bytes()[0];
        if opcode == OPCODE_NOP {
            return Ok((1, self.consume(1)));
        }
        let after_opcode = self.consume(1);
        let (length, size) = self.from_start(after_opcode.read_length_1_1())?;
        if length > after_opcode.len() - size {
            return Err(IonError::Incomplete { offset: self.offset() });
        }
        let total = 1 + size + length;
        Ok((total, self.consume(total)))
    }

    /// Skips every Ion 1.1 NOP pad at the front of the buffer and returns the
    /// number of bytes skipped.
    #[verifier::rlimit(50)]
    pub fn consume_nop_padding_1_1(&self) -> (r: IonResult<(usize, ImmutableBuffer<'a>)>)
        requires
            self.wf(),
        ensures
            match nop_padding_1_1(self@) {
                Ok(padding) => r is Ok && r->Ok_0.0 == padding && r->Ok_0.1.is_rest_of(
                    *self,
                    padding as int,
                ) && r->Ok_0.1.wf() && (r->Ok_0.1@.len() > 0 ==> !(r->Ok_0.1@[0] == 0xEC
                    || r->Ok_0.1@[0] == 0xED)),
                Err(ParseFault::Incomplete) => r is Err && self.fails_with(
                    r->Err_0,
                    ParseFault::Incomplete,
                ),
                Err(ParseFault::Malformed) => r is Err && r->Err_0 == IonError::Decoding,
            },
    {
        let mut buffer = *self;
        let mut skipped: usize = 0;
        assert(self@.skip(0) =~= self@);
        while !buffer.is_empty() && (buffer.bytes()[0] == OPCODE_NOP || buffer.bytes()[0]
            == OPCODE_NOP_WITH_LENGTH)
            invariant
                self.wf(),
                buffer.wf(),
                buffer.is_rest_of(*self, skipped as int),
                match nop_padding_1_1(buffer@) {
                    Ok(more) => nop_padding_1_1(self@) == Ok::<nat, ParseFault>(
                        (skipped + more) as nat,
                    ),
                    Err(fault) => nop_padding_1_1(self@) == Err::<nat, ParseFault>(fault),
                },
            decreases buffer@.len(),
        {
            match buffer.read_nop_pad_1_1() {
                Ok((pad, rest)) => {
                    assert(rest@ =~= self@.skip(skipped + pad));
                    skipped += pad;
                    buffer = rest;
                },
                Err(error) => {
                    return Err(self.at_start(error));
                },
            }
        }
        Ok((skipped, buffer))
    }
}

} // verus!
