//! The record that the parser keeps of a value it has matched.

use vstd::prelude::*;
use crate::binary::type_descriptor::ion_type_of;
use crate::lazy::binary::layout::ValueLayout;
use crate::types::{IonType, SymbolId};

verus! {

/// Where a value that the parser matched lies in the stream. The record holds
/// no reference to the input and copies freely.
///
/// The parts of a value follow one another: the field ID when the value is a
/// field of a struct, the annotations wrapper when it has annotations, the
/// header and the body.
#[derive(Debug, Clone, Copy, PartialEq, Eq)]
pub struct EncodedValue {
    /// The type descriptor byte.
    pub opcode: u8,
    /// The Ion type that the type descriptor names.
    pub ion_type: IonType,
    /// The number of bytes of the field ID; zero outside a struct.
    pub field_id_length: usize,
    /// The field ID, when the value is a field of a struct.
    pub field_id: Option<SymbolId>,
    /// The number of bytes of the annotations wrapper before the header; zero
    /// without annotations.
    pub annotations_header_length: usize,
    /// The number of bytes of the annotations themselves.
    pub annotations_sequence_length: usize,
    /// The stream offset of the type descriptor.
    pub header_offset: usize,
    /// The number of bytes of the length that follows the type descriptor.
    pub length_length: usize,
    /// The number of bytes of the body.
    pub value_length: usize,
    /// The number of bytes of all parts together.
    pub total_length: usize,
}

impl EncodedValue {
    /// The layout that this record holds.
    pub open spec fn layout(&self) -> ValueLayout {
        ValueLayout {
            opcode: self.opcode,
            ion_type: self.ion_type,
            annotations_header_length: self.annotations_header_length as nat,
            annotations_sequence_length: self.annotations_sequence_length as nat,
            length_length: self.length_length as nat,
            value_length: self.value_length as nat,
        }
    }

    /// The stream offset of the first byte of the value: of its field ID, of
    /// its annotations wrapper or of its header, whichever comes first.
    pub open spec fn spec_start_offset(&self) -> int {
        self.header_offset - self.annotations_header_length - self.field_id_length
    }

    /// The stream offset of the first byte of the body.
    pub open spec fn spec_value_offset(&self) -> int {
        self.header_offset + 1 + self.length_length
    }

    /// The stream offset after the last byte of the value.
    pub open spec fn spec_value_end(&self) -> int {
        self.header_offset + 1 + self.length_length + self.value_length
    }

    /// The parts are consistent: the total length is the sum of the parts and
    /// at least one, the type is the one that the type descriptor names, a
    /// field ID takes bytes, and every offset is a `usize`.
    pub open spec fn wf(&self) -> bool {
        &&& ion_type_of(self.opcode) == Some(self.ion_type)
        &&& self.total_length == self.field_id_length + self.annotations_header_length + 1
            + self.length_length + self.value_length
        &&& self.spec_start_offset() >= 0
        &&& self.spec_value_end() <= usize::MAX
        &&& self.annotations_sequence_length <= self.annotations_header_length
        &&& (self.field_id is Some <==> self.field_id_length > 0)
    }

    /// Returns the Ion type of the value.
    pub fn ion_type(&self) -> (t: IonType)
        ensures
            t == self.ion_type,
    {
        self.ion_type
    }

    /// Reports whether the value is a null: whether its length code is 15.
    pub fn is_null(&self) -> (b: bool)
        ensures
            b == self.layout().is_null(),
    {
        self.opcode % 16 == 15
    }

    /// Returns the stream offset of the type descriptor.
    pub fn header_offset(&self) -> (offset: usize)
        ensures
            offset == self.header_offset,
    {
        self.header_offset
    }

    /// Returns the number of bytes of the header: the type descriptor and the
    /// length.
    pub fn header_length(&self) -> (length: usize)
        requires
            self.wf(),
        ensures
            length == 1 + self.length_length,
    {
        1 + self.length_length
    }

    /// Returns the stream offsets at which the header starts and ends.
    pub fn header_range(&self) -> (range: core::ops::Range<usize>)
        requires
            self.wf(),
        ensures
            range.start == self.header_offset,
            range.end == self.spec_value_offset(),
    {
        self.header_offset..self.header_offset + 1 + self.length_length
    }

    /// Returns the number of bytes of the body.
    pub fn value_length(&self) -> (length: usize)
        ensures
            length == self.value_length,
    {
        self.value_length
    }

    /// Returns the stream offset of the first byte of the body.
    pub fn value_offset(&self) -> (offset: usize)
        requires
            self.wf(),
        ensures
            offset == self.spec_value_offset(),
    {
        self.header_offset + 1 + self.length_length
    }

    /// Returns the stream offsets at which the body starts and ends. The body
    /// starts where the header ends.
    pub fn value_range(&self) -> (range: core::ops::Range<usize>)
        requires
            self.wf(),
        ensures
            range.start == self.spec_value_offset(),
            range.end == self.spec_value_end(),
    {
        let start = self.header_offset + 1 + self.length_length;
        start..start + self.value_length
    }

    /// Returns the stream offset after the last byte of the value.
    pub fn value_end_exclusive(&self) -> (offset: usize)
        requires
            self.wf(),
        ensures
            offset == self.spec_value_end(),
    {
        self.header_offset + 1 + self.length_length + self.value_length
    }

    /// Returns the number of bytes of the field ID.
    pub fn field_id_length(&self) -> (length: Option<usize>)
        ensures
            length == if self.field_id is Some {
                Some(self.field_id_length)
            } else {
                None
            },
    {
        match self.field_id {
            Some(_) => Some(self.field_id_length),
            None => None,
        }
    }

    /// Returns the stream offset of the field ID, when the value has one.
    pub fn field_id_offset(&self) -> (offset: Option<usize>)
        requires
            self.wf(),
        ensures
            offset is Some == self.field_id is Some,
            offset is Some ==> offset->Some_0 == self.spec_start_offset(),
    {
        match self.field_id {
            Some(_) => Some(
                self.header_offset - self.annotations_header_length - self.field_id_length,
            ),
            None => None,
        }
    }

    /// Returns the stream offsets at which the field ID starts and ends, when
    /// the value has one.
    pub fn field_id_range(&self) -> (range: Option<core::ops::Range<usize>>)
        requires
            self.wf(),
        ensures
            range is Some == self.field_id is Some,
            range is Some ==> range->Some_0.start == self.spec_start_offset()
                && range->Some_0.end == self.spec_start_offset() + self.field_id_length,
    {
        match self.field_id {
            Some(_) => {
                let start = self.header_offset - self.annotations_header_length
                    - self.field_id_length;
                Some(start..start + self.field_id_length)
            },
            None => None,
        }
    }

    /// Reports whether the value has annotations.
    pub fn has_annotations(&self) -> (b: bool)
        ensures
            b == (self.annotations_header_length > 0),
    {
        self.annotations_header_length > 0
    }

    /// Returns the number of bytes of the annotations wrapper before the
    /// header, when the value has annotations.
    pub fn annotations_header_length(&self) -> (length: Option<usize>)
        ensures
            length == if self.annotations_header_length > 0 {
                Some(self.annotations_header_length)
            } else {
                None
            },
    {
        if self.annotations_header_length == 0 {
            None
        } else {
            Some(self.annotations_header_length)
        }
    }

    /// Returns the number of bytes of the annotations themselves, when the
    /// value has annotations.
    pub fn annotations_sequence_length(&self) -> (length: Option<usize>)
        ensures
            length == if self.annotations_header_length > 0 {
                Some(self.annotations_sequence_length)
            } else {
                None
            },
    {
        if self.annotations_header_length == 0 {
            None
        } else {
            Some(self.annotations_sequence_length)
        }
    }

    /// Returns the stream offset of the annotations wrapper, when the value
    /// has annotations.
    pub fn annotations_offset(&self) -> (offset: Option<usize>)
        requires
            self.wf(),
        ensures
            offset is Some == (self.annotations_header_length > 0),
            offset is Some ==> offset->Some_0 == self.header_offset
                - self.annotations_header_length,
    {
        if self.annotations_header_length == 0 {
            None
        } else {
            Some(self.header_offset - self.annotations_header_length)
        }
    }

    /// Returns the stream offsets at which the annotations wrapper's own bytes
    /// start and end, when the value has annotations. They end where the header
    /// starts.
    pub fn annotations_range(&self) -> (range: Option<core::ops::Range<usize>>)
        requires
            self.wf(),
        ensures
            range is Some == (self.annotations_header_length > 0),
            range is Some ==> range->Some_0.start == self.header_offset
                - self.annotations_header_length && range->Some_0.end == self.header_offset,
    {
        if self.annotations_header_length == 0 {
            None
        } else {
            Some(self.header_offset - self.annotations_header_length..self.header_offset)
        }
    }

    /// Returns the number of bytes of all parts of the value.
    pub fn total_length(&self) -> (length: usize)
        ensures
            length == self.total_length,
    {
        self.total_length
    }
}

} // verus!
