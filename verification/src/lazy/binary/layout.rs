//! The shape of Ion 1.0 binary data, stated on sequences of bytes.
//!
//! The functions of this module say where the parts of the next item of a
//! byte sequence lie: its NOP padding, its annotations wrapper, its header and
//! its body. The parser's contracts are stated over them.

use vstd::prelude::*;
use crate::binary::type_descriptor::{ion_type_of, is_annotation_opcode, is_nop_opcode};
use crate::binary::var_uint::var_uint_parse;
use crate::result::ParseFault;
use crate::types::IonType;

verus! {

/// Where the parts of one encoded value lie, counted from its first byte.
pub struct ValueLayout {
    /// The type descriptor byte of the value itself.
    pub opcode: u8,
    /// The value's Ion type.
    pub ion_type: IonType,
    /// The length of the annotations wrapper's own bytes: its type descriptor,
    /// its length, the length of the annotations and the annotations. Zero
    /// for a value without annotations.
    pub annotations_header_length: nat,
    /// The length of the annotations alone.
    pub annotations_sequence_length: nat,
    /// The number of bytes of the `VarUInt` length that follows the value's
    /// type descriptor, if any.
    pub length_length: nat,
    /// The length of the value's body.
    pub value_length: nat,
}

impl ValueLayout {
    /// The length of the header: the type descriptor and the length bytes.
    pub open spec fn header_length(self) -> nat {
        1 + self.length_length
    }

    /// The length of everything: annotations wrapper, header and body.
    pub open spec fn total_length(self) -> nat {
        self.annotations_header_length + 1 + self.length_length + self.value_length
    }

    /// True when the value's length code says "null".
    pub open spec fn is_null(self) -> bool {
        self.opcode % 16 == 15
    }
}

/// The length that the length code `length_code` announces, and the number of
/// bytes of `s` that spell it: none unless the code is 14.
pub open spec fn parse_length(s: Seq<u8>, length_code: u8) -> Result<(nat, nat), ParseFault> {
    if length_code == 15 {
        Ok((0, 0))
    } else if length_code == 14 {
        var_uint_parse(s)
    } else {
        Ok((length_code as nat, 0))
    }
}

/// The length code that decides how the length of a value is read. Nulls and
/// booleans have no body. A struct with `L` = 1 has its fields in order and its
/// length in a `VarUInt`.
pub open spec fn effective_length_code(ion_type: IonType, length_code: u8) -> u8 {
    if ion_type is Null || ion_type is Bool {
        0
    } else if ion_type is Struct && length_code == 1 {
        14
    } else {
        length_code
    }
}

/// True when a type accepts the length code.
pub open spec fn length_code_allowed(ion_type: IonType, length_code: u8) -> bool {
    if ion_type is Bool {
        length_code == 0 || length_code == 1 || length_code == 15
    } else if ion_type is Float {
        length_code == 0 || length_code == 4 || length_code == 8 || length_code == 15
    } else {
        true
    }
}

/// The layout of the value without annotations at the front of `s`.
///
/// The input is incomplete when it is empty, ends inside the length or is
/// shorter than the length announces. It is malformed when the first byte
/// starts no value, when the type refuses the length code, for a timestamp
/// that is not null and has at most one byte, and for an ordered struct
/// without fields.
pub open spec fn parse_unannotated(s: Seq<u8>) -> Result<ValueLayout, ParseFault> {
    if s.len() == 0 {
        Err(ParseFault::Incomplete)
    } else {
        match ion_type_of(s[0]) {
            None => Err(ParseFault::Malformed),
            Some(ion_type) => {
                let length_code = s[0] % 16;
                if !length_code_allowed(ion_type, length_code) {
                    Err(ParseFault::Malformed)
                } else {
                    match parse_length(s.skip(1), effective_length_code(ion_type, length_code)) {
                        Err(fault) => Err(fault),
                        Ok((length, size)) => {
                            if ion_type is Timestamp && length_code != 15 && length <= 1 {
                                Err(ParseFault::Malformed)
                            } else if ion_type is Struct && length_code == 1 && length == 0 {
                                Err(ParseFault::Malformed)
                            } else if 1 + size + length > s.len() {
                                Err(ParseFault::Incomplete)
                            } else {
                                Ok(
                                    ValueLayout {
                                        opcode: s[0],
                                        ion_type,
                                        annotations_header_length: 0,
                                        annotations_sequence_length: 0,
                                        length_length: size,
                                        value_length: length,
                                    },
                                )
                            }
                        },
                    }
                }
            },
        }
    }
}

/// The parts of an annotations wrapper's own bytes.
pub struct WrapperLayout {
    /// The length that the wrapper declares: everything after its length
    /// field.
    pub declared_length: nat,
    /// The number of bytes of the wrapper's length field.
    pub declared_length_size: nat,
    /// The length of the annotations.
    pub sequence_length: nat,
    /// The number of bytes of the field that holds the annotations' length.
    pub sequence_length_size: nat,
}

impl WrapperLayout {
    /// The length of the wrapper's own bytes, up to the wrapped value.
    pub open spec fn header_length(self) -> nat {
        1 + self.declared_length_size + self.sequence_length_size + self.sequence_length
    }

    /// The length that is left for the wrapped value.
    pub open spec fn expected_value_length(self) -> int {
        self.declared_length - self.sequence_length_size - self.sequence_length
    }
}

/// The layout of the annotations wrapper at the front of `s`, which starts
/// with a byte of type code 14.
///
/// A wrapper is malformed when its length code is 15, when it holds no
/// annotations, and when it leaves no room for a value.
pub open spec fn parse_wrapper(s: Seq<u8>) -> Result<WrapperLayout, ParseFault> {
    let length_code = s[0] % 16;
    if length_code == 15 {
        Err(ParseFault::Malformed)
    } else {
        match parse_length(s.skip(1), length_code) {
            Err(fault) => Err(fault),
            Ok((declared_length, declared_length_size)) => {
                match var_uint_parse(s.skip(1 + declared_length_size as int)) {
                    Err(fault) => Err(fault),
                    Ok((sequence_length, sequence_length_size)) => {
                        if sequence_length == 0 {
                            Err(ParseFault::Malformed)
                        } else if declared_length <= sequence_length_size + sequence_length {
                            Err(ParseFault::Malformed)
                        } else {
                            Ok(
                                WrapperLayout {
                                    declared_length,
                                    declared_length_size,
                                    sequence_length,
                                    sequence_length_size,
                                },
                            )
                        }
                    },
                }
            },
        }
    }
}

/// The layout of the annotated value at the front of `s`, which starts with a
/// byte of type code 14.
///
/// Beyond what makes the wrapper or the wrapped value malformed, an annotated
/// value is malformed when what it wraps is another wrapper or NOP padding,
/// and when the wrapped value does not end where the wrapper says.
pub open spec fn parse_annotated(s: Seq<u8>) -> Result<ValueLayout, ParseFault> {
    match parse_wrapper(s) {
        Err(fault) => Err(fault),
        Ok(wrapper) => {
            let start = wrapper.header_length() as int;
            if start >= s.len() {
                Err(ParseFault::Incomplete)
            } else if is_annotation_opcode(s[start]) || is_nop_opcode(s[start]) {
                Err(ParseFault::Malformed)
            } else {
                match parse_unannotated(s.skip(start)) {
                    Err(fault) => Err(fault),
                    Ok(inner) => {
                        if inner.total_length() != wrapper.expected_value_length() {
                            Err(ParseFault::Malformed)
                        } else {
                            Ok(
                                ValueLayout {
                                    annotations_header_length: wrapper.header_length(),
                                    annotations_sequence_length: wrapper.sequence_length,
                                    ..inner
                                },
                            )
                        }
                    },
                }
            }
        },
    }
}

/// The layout of the value at the front of `s`, with or without annotations.
pub open spec fn parse_value(s: Seq<u8>) -> Result<ValueLayout, ParseFault> {
    if s.len() == 0 {
        Err(ParseFault::Incomplete)
    } else if is_annotation_opcode(s[0]) {
        parse_annotated(s)
    } else {
        parse_unannotated(s)
    }
}

/// The length of the NOP pad at the front of `s`, which starts with a NOP
/// type descriptor: the descriptor, its length bytes and the padding bytes.
pub open spec fn parse_nop_pad(s: Seq<u8>) -> Result<nat, ParseFault> {
    match parse_length(s.skip(1), s[0] % 16) {
        Err(fault) => Err(fault),
        Ok((length, size)) => {
            if 1 + size + length > s.len() {
                Err(ParseFault::Incomplete)
            } else {
                Ok(1 + size + length)
            }
        },
    }
}

/// The number of bytes of NOP padding at the front of `s`: every pad up to
/// the first byte that starts none.
pub open spec fn nop_padding(s: Seq<u8>) -> Result<nat, ParseFault>
    decreases s.len(),
{
    if s.len() == 0 || !is_nop_opcode(s[0]) {
        Ok(0)
    } else {
        match parse_nop_pad(s) {
            Err(fault) => Err(fault),
            Ok(pad) => match nop_padding(s.skip(pad as int)) {
                Err(fault) => Err(fault),
                Ok(more) => Ok(pad + more),
            },
        }
    }
}

/// A child of a list or an s-expression: the NOP padding before it, and the
/// value.
pub struct ChildLayout {
    pub padding: nat,
    pub value: ValueLayout,
}

impl ChildLayout {
    /// The number of bytes from the start of the padding to the end of the
    /// value.
    pub open spec fn consumed(self) -> nat {
        self.padding + self.value.total_length()
    }
}

/// The next child of the sequence body `s`; `None` when only NOP padding, or
/// nothing, is left.
pub open spec fn next_child(s: Seq<u8>) -> Result<Option<ChildLayout>, ParseFault> {
    match nop_padding(s) {
        Err(fault) => Err(fault),
        Ok(padding) => {
            if padding >= s.len() {
                Ok(None)
            } else {
                match parse_value(s.skip(padding as int)) {
                    Err(fault) => Err(fault),
                    Ok(value) => Ok(Some(ChildLayout { padding, value })),
                }
            }
        },
    }
}

/// The children of the sequence body `s`, in the order of the bytes.
pub open spec fn children(s: Seq<u8>) -> Result<Seq<ChildLayout>, ParseFault>
    decreases s.len(),
{
    match next_child(s) {
        Err(fault) => Err(fault),
        Ok(None) => Ok(Seq::empty()),
        Ok(Some(child)) => {
            if child.consumed() == 0 || child.consumed() > s.len() {
                Err(ParseFault::Malformed)
            } else {
                match children(s.skip(child.consumed() as int)) {
                    Err(fault) => Err(fault),
                    Ok(rest) => Ok(seq![child] + rest),
                }
            }
        },
    }
}

/// The sum of the bytes that the children take, padding included.
pub open spec fn consumed_by(children: Seq<ChildLayout>) -> nat
    decreases children.len(),
{
    if children.len() == 0 {
        0
    } else {
        children[0].consumed() + consumed_by(children.drop_first())
    }
}

/// The sum of the children's total lengths.
pub open spec fn total_lengths(children: Seq<ChildLayout>) -> nat
    decreases children.len(),
{
    if children.len() == 0 {
        0
    } else {
        children[0].value.total_length() + total_lengths(children.drop_first())
    }
}

/// The sum of the NOP padding before the children.
pub open spec fn padding_before(children: Seq<ChildLayout>) -> nat
    decreases children.len(),
{
    if children.len() == 0 {
        0
    } else {
        children[0].padding + padding_before(children.drop_first())
    }
}

/// The NOP padding that follows the last child of the sequence body `s`.
pub open spec fn trailing_padding(s: Seq<u8>) -> nat
    decreases s.len(),
{
    match next_child(s) {
        Ok(Some(child)) => {
            if child.consumed() == 0 || child.consumed() > s.len() {
                0
            } else {
                trailing_padding(s.skip(child.consumed() as int))
            }
        },
        _ => s.len(),
    }
}

/// A struct field: the NOP padding before it, its field ID with the number of
/// bytes that spell it, and its value.
pub struct FieldLayout {
    pub padding: nat,
    pub field_id: nat,
    pub field_id_length: nat,
    pub value: ValueLayout,
}

impl FieldLayout {
    /// The number of bytes from the start of the padding to the end of the
    /// value.
    pub open spec fn consumed(self) -> nat {
        self.padding + self.field_id_length + self.value.total_length()
    }
}

/// What stands at the front of a struct body.
pub enum FieldStepLayout {
    /// Nothing: the body has ended.
    End,
    /// A NOP field of `length` bytes: a field ID followed by NOP padding.
    Pad { length: nat },
    /// A field.
    Field(FieldLayout),
}

/// What stands at the front of the struct body `s`.
///
/// A field ID that ends the input is incomplete; one that no `usize` holds is
/// malformed.
pub open spec fn field_step(s: Seq<u8>) -> Result<FieldStepLayout, ParseFault> {
    if s.len() == 0 {
        Ok(FieldStepLayout::End)
    } else {
        match var_uint_parse(s) {
            Err(fault) => Err(fault),
            Ok((field_id, size)) => {
                if size >= s.len() {
                    Err(ParseFault::Incomplete)
                } else if is_nop_opcode(s[size as int]) {
                    match parse_nop_pad(s.skip(size as int)) {
                        Err(fault) => Err(fault),
                        Ok(pad) => Ok(FieldStepLayout::Pad { length: size + pad }),
                    }
                } else if field_id > usize::MAX {
                    Err(ParseFault::Malformed)
                } else {
                    match parse_value(s.skip(size as int)) {
                        Err(fault) => Err(fault),
                        Ok(value) => Ok(
                            FieldStepLayout::Field(
                                FieldLayout { padding: 0, field_id, field_id_length: size, value },
                            ),
                        ),
                    }
                }
            },
        }
    }
}

/// The next field of the struct body `s`, after `padding` bytes of NOP
/// fields; `None` when nothing but NOP fields is left.
pub open spec fn next_field_after(s: Seq<u8>, padding: nat) -> Result<Option<FieldLayout>, ParseFault>
    decreases s.len(),
{
    match field_step(s) {
        Err(fault) => Err(fault),
        Ok(FieldStepLayout::End) => Ok(None),
        Ok(FieldStepLayout::Pad { length }) => {
            if length == 0 || length > s.len() {
                Err(ParseFault::Malformed)
            } else {
                next_field_after(s.skip(length as int), padding + length)
            }
        },
        Ok(FieldStepLayout::Field(field)) => Ok(Some(FieldLayout { padding, ..field })),
    }
}

/// The next field of the struct body `s`.
pub open spec fn next_field(s: Seq<u8>) -> Result<Option<FieldLayout>, ParseFault> {
    next_field_after(s, 0)
}

/// The fields of the struct body `s`, in the order of the bytes.
pub open spec fn fields(s: Seq<u8>) -> Result<Seq<FieldLayout>, ParseFault>
    decreases s.len(),
{
    match next_field(s) {
        Err(fault) => Err(fault),
        Ok(None) => Ok(Seq::empty()),
        Ok(Some(field)) => {
            if field.consumed() == 0 || field.consumed() > s.len() {
                Err(ParseFault::Malformed)
            } else {
                match fields(s.skip(field.consumed() as int)) {
                    Err(fault) => Err(fault),
                    Ok(rest) => Ok(seq![field] + rest),
                }
            }
        },
    }
}

/// An item at the top level of a stream.
pub enum ItemLayout {
    /// An Ion version marker with its major and minor version.
    VersionMarker { padding: nat, major: u8, minor: u8 },
    /// A value.
    Value(ChildLayout),
    /// Nothing but NOP padding, or nothing at all, is left.
    EndOfStream { padding: nat },
}

/// The next item of the stream `s`.
///
/// A version marker is four bytes, `E0 major minor EA`; one that is cut short
/// is incomplete, and one that ends otherwise is malformed.
pub open spec fn next_item(s: Seq<u8>) -> Result<ItemLayout, ParseFault> {
    match nop_padding(s) {
        Err(fault) => Err(fault),
        Ok(padding) => {
            if padding >= s.len() {
                Ok(ItemLayout::EndOfStream { padding })
            } else if s[padding as int] == 0xE0 {
                if padding + 4 > s.len() {
                    Err(ParseFault::Incomplete)
                } else if s[padding as int + 3] != 0xEA {
                    Err(ParseFault::Malformed)
                } else {
                    Ok(
                        ItemLayout::VersionMarker {
                            padding,
                            major: s[padding as int + 1],
                            minor: s[padding as int + 2],
                        },
                    )
                }
            } else {
                match parse_value(s.skip(padding as int)) {
                    Err(fault) => Err(fault),
                    Ok(value) => Ok(ItemLayout::Value(ChildLayout { padding, value })),
                }
            }
        },
    }
}

/// The sum of the bytes that the fields take, NOP fields before them
/// included.
pub open spec fn consumed_by_fields(fields: Seq<FieldLayout>) -> nat
    decreases fields.len(),
{
    if fields.len() == 0 {
        0
    } else {
        fields[0].consumed() + consumed_by_fields(fields.drop_first())
    }
}

/// The NOP fields that follow the last field of the struct body `s`.
pub open spec fn trailing_field_padding(s: Seq<u8>) -> nat
    decreases s.len(),
{
    match next_field(s) {
        Ok(Some(field)) => {
            if field.consumed() == 0 || field.consumed() > s.len() {
                0
            } else {
                trailing_field_padding(s.skip(field.consumed() as int))
            }
        },
        _ => s.len(),
    }
}

/// The children of a sequence fill its body: the bytes that the children
/// take, with the NOP padding before each, and the NOP padding after the last
/// child add up to the length of the body.
pub proof fn lemma_children_fill_body(s: Seq<u8>)
    requires
        children(s) is Ok,
    ensures
        consumed_by(children(s)->Ok_0) + trailing_padding(s) == s.len(),
        consumed_by(children(s)->Ok_0) == total_lengths(children(s)->Ok_0) + padding_before(
            children(s)->Ok_0,
        ),
    decreases s.len(),
{
    match next_child(s) {
        Ok(Some(child)) => {
            let rest = s.skip(child.consumed() as int);
            lemma_children_fill_body(rest);
            let all = children(s)->Ok_0;
            assert(all.drop_first() =~= children(rest)->Ok_0);
            assert(all[0] == child);
        },
        _ => {},
    }
}

/// In a sequence without NOP padding, the total lengths of the children add
/// up to the length of the body.
pub proof fn lemma_total_lengths_fill_body(s: Seq<u8>)
    requires
        children(s) is Ok,
        padding_before(children(s)->Ok_0) == 0,
        trailing_padding(s) == 0,
    ensures
        total_lengths(children(s)->Ok_0) == s.len(),
{
    lemma_children_fill_body(s);
}

/// The fields of a struct fill its body: the bytes that the fields take,
/// each with its field ID and the NOP fields before it, and the NOP fields
/// after the last field add up to the length of the body.
pub proof fn lemma_fields_fill_body(s: Seq<u8>)
    requires
        fields(s) is Ok,
    ensures
        consumed_by_fields(fields(s)->Ok_0) + trailing_field_padding(s) == s.len(),
    decreases s.len(),
{
    match next_field(s) {
        Ok(Some(field)) => {
            let rest = s.skip(field.consumed() as int);
            lemma_fields_fill_body(rest);
            let all = fields(s)->Ok_0;
            assert(all.drop_first() =~= fields(rest)->Ok_0);
            assert(all[0] == field);
        },
        _ => {},
    }
}

/// The length that the wrapper of an annotated value declares is the length
/// of the field that holds the annotations' length, of the annotations, and of
/// the header and the body of the value that is wrapped.
pub proof fn lemma_wrapper_declares_what_follows(s: Seq<u8>)
    requires
        s.len() > 0,
        is_annotation_opcode(s[0]),
        parse_value(s) is Ok,
    ensures
        parse_wrapper(s) is Ok,
        parse_wrapper(s)->Ok_0.declared_length == parse_wrapper(s)->Ok_0.sequence_length_size
            + parse_value(s)->Ok_0.annotations_sequence_length + parse_value(
            s,
        )->Ok_0.header_length() + parse_value(s)->Ok_0.value_length,
        parse_value(s)->Ok_0.annotations_header_length == parse_wrapper(s)->Ok_0.header_length(),
        parse_value(s)->Ok_0.annotations_sequence_length > 0,
{
}

} // verus!
