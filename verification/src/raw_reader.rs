//! The streaming raw reader: a cursor that walks a binary stream value by
//! value, steps into containers and out of them, and leaves symbols as IDs.

use vstd::prelude::*;
use crate::lazy::binary::layout::{next_child, next_field, next_item, ItemLayout};
use crate::lazy::binary::raw::reader::LazyRawBinaryReader_1_0;
use crate::lazy::binary::raw::value::{decode_body, LazyRawBinaryValue_1_0};
use crate::lazy::binary::immutable_buffer::ImmutableBuffer;
use crate::lazy::binary::raw::annotations_iterator::annotation_ids;
use crate::lazy::raw_stream_item::LazyRawStreamItem;
use crate::lazy::raw_value_ref::RawValueRef;
use crate::raw_symbol_token_ref::RawSymbolTokenRef;
use crate::result::{IonError, IonResult, ParseFault};
use crate::types::{IonType, SymbolId};

verus! {

/// Raw stream components that a raw reader may encounter.
#[derive(Debug, Eq, PartialEq, Copy, Clone, Structural)]
pub enum RawStreamItem {
    /// An Ion Version Marker (IVM) indicating the Ion major and minor version
    /// that were used to encode the values that follow.
    VersionMarker(u8, u8),
    /// A non-null Ion value and its corresponding Ion data type. Values that
    /// hold symbol tables are still values at the raw level.
    Value(IonType),
    /// A null Ion value and its corresponding Ion data type.
    Null(IonType),
    /// Indicates that the reader is not positioned over anything: before the
    /// first call of `next`, after stepping into or out of a container, and
    /// after the last item of a container or of the stream.
    Nothing,
}

impl RawStreamItem {
    /// If `is_null` is `true`, returns `RawStreamItem::Null(ion_type)`.
    /// Otherwise, returns `RawStreamItem::Value(ion_type)`.
    pub fn nullable_value(ion_type: IonType, is_null: bool) -> (item: RawStreamItem)
        ensures
            item == Self::spec_nullable_value(ion_type, is_null),
    {
        if is_null {
            RawStreamItem::Null(ion_type)
        } else {
            RawStreamItem::Value(ion_type)
        }
    }

    /// The item for a value of the given type.
    pub open spec fn spec_nullable_value(ion_type: IonType, is_null: bool) -> RawStreamItem {
        if is_null {
            RawStreamItem::Null(ion_type)
        } else {
            RawStreamItem::Value(ion_type)
        }
    }
}

/// A container that the reader has stepped into.
#[derive(Debug, Clone, Copy)]
pub struct ParentContainer {
    /// The type of the container.
    pub ion_type: IonType,
    /// The stream offset at which the container ends.
    pub end: usize,
}

/// A cursor over a binary Ion stream that is held in memory.
///
/// The reader starts at the top level, positioned over nothing. `next` moves
/// it to the next value of the current level, `step_in` into the container it
/// is positioned over, and `step_out` past the end of the container it is in.
#[derive(Debug)]
pub struct RawBinaryReader<'a> {
    data: &'a [u8],
    position: usize,
    parents: Vec<ParentContainer>,
    current_value: Option<LazyRawBinaryValue_1_0<'a>>,
    ion_version: (u8, u8),
}

impl<'a> RawBinaryReader<'a> {
    /// The bytes of the whole stream.
    pub closed spec fn spec_data(&self) -> Seq<u8> {
        self.data@
    }

    /// The stream offset of the first byte that the reader has not passed.
    pub closed spec fn spec_position(&self) -> int {
        self.position as int
    }

    /// The containers that the reader is in, outermost first.
    pub closed spec fn spec_parents(&self) -> Seq<ParentContainer> {
        self.parents@
    }

    /// The value that the reader is positioned over.
    pub closed spec fn spec_current(&self) -> Option<LazyRawBinaryValue_1_0<'a>> {
        self.current_value
    }

    /// The version that the version marker read last named; 1.0 before any.
    pub closed spec fn spec_ion_version(&self) -> (u8, u8) {
        self.ion_version
    }

    /// The number of containers that the reader is in.
    pub open spec fn spec_depth(&self) -> nat {
        self.spec_parents().len()
    }

    /// The stream offset at which the current level ends: the end of the
    /// innermost container, or of the stream at the top level.
    pub open spec fn spec_limit(&self) -> int {
        if self.spec_parents().len() == 0 {
            self.spec_data().len() as int
        } else {
            self.spec_parents().last().end as int
        }
    }

    /// The bytes of the current level that the reader has not passed.
    pub open spec fn spec_remaining(&self) -> Seq<u8> {
        self.spec_data().subrange(self.spec_position(), self.spec_limit())
    }

    /// The position lies within the current level, every container lies
    /// within the one around it, and the value that the reader is positioned
    /// over is one that the parser matched and that ends at the position.
    pub open spec fn wf(&self) -> bool {
        &&& 0 <= self.spec_position() <= self.spec_limit() <= self.spec_data().len()
        &&& forall|i: int|
            0 <= i < self.spec_parents().len() ==> #[trigger] self.spec_parents()[i].end
                <= self.spec_data().len()
        &&& forall|i: int, j: int|
            0 <= i < j < self.spec_parents().len() ==> self.spec_parents()[j].end
                <= self.spec_parents()[i].end
        &&& match self.spec_current() {
            Some(value) => value.wf() && value.encoded_value.spec_value_end()
                == self.spec_position() && value.input@ == self.spec_data().subrange(
                value.input.spec_offset() as int,
                self.spec_limit(),
            ) && value.input.spec_offset() <= self.spec_position(),
            None => true,
        }
    }

    /// A reader over `data`, which holds a stream from its start. The reader
    /// is at the top level, positioned over nothing.
    pub fn new(data: &'a [u8]) -> (reader: Self)
        ensures
            reader.wf(),
            reader.spec_data() == data@,
            reader.spec_position() == 0,
            reader.spec_depth() == 0,
            reader.spec_current() is None,
            reader.spec_ion_version() == (1u8, 0u8),
    {
        RawBinaryReader {
            data,
            position: 0,
            parents: Vec::new(),
            current_value: None,
            ion_version: (1, 0),
        }
    }

    /// Returns the (major, minor) version of the Ion stream being read:
    /// (1, 0) before a version marker has been read.
    pub fn ion_version(&self) -> (version: (u8, u8))
        ensures
            version == self.spec_ion_version(),
    {
        self.ion_version
    }

    /// Returns the number of containers that the reader has stepped into
    /// without stepping out.
    pub fn depth(&self) -> (depth: usize)
        ensures
            depth == self.spec_depth(),
    {
        self.parents.len()
    }

    /// Returns the type of the container that the reader is in; `None` at
    /// the top level.
    pub fn parent_type(&self) -> (parent: Option<IonType>)
        ensures
            parent == if self.spec_depth() == 0 {
                None
            } else {
                Some(self.spec_parents().last().ion_type)
            },
    {
        if self.parents.len() == 0 {
            None
        } else {
            Some(self.parents[self.parents.len() - 1].ion_type)
        }
    }

    /// Returns the stream offset of the first byte that the reader has not
    /// passed.
    pub fn position(&self) -> (position: usize)
        ensures
            position == self.spec_position(),
    {
        self.position
    }

    /// Returns the value that the reader is positioned over, as a lazy
    /// handle.
    pub fn current_value(&self) -> (value: Option<LazyRawBinaryValue_1_0<'a>>)
        ensures
            value == self.spec_current(),
    {
        self.current_value
    }

    /// Returns what the reader is positioned over.
    pub fn current(&self) -> (item: RawStreamItem)
        ensures
            item == match self.spec_current() {
                Some(value) => RawStreamItem::spec_nullable_value(
                    value.layout().ion_type,
                    value.layout().is_null(),
                ),
                None => RawStreamItem::Nothing,
            },
    {
        match &self.current_value {
            Some(value) => RawStreamItem::nullable_value(value.ion_type(), value.is_null()),
            None => RawStreamItem::Nothing,
        }
    }

    /// Returns the type of the value that the reader is positioned over.
    pub fn ion_type(&self) -> (ion_type: Option<IonType>)
        ensures
            ion_type == match self.spec_current() {
                Some(value) => Some(value.layout().ion_type),
                None => None,
            },
    {
        match &self.current_value {
            Some(value) => Some(value.ion_type()),
            None => None,
        }
    }

    /// Reports whether the reader is positioned over a null.
    pub fn is_null(&self) -> (is_null: bool)
        ensures
            is_null == match self.spec_current() {
                Some(value) => value.layout().is_null(),
                None => false,
            },
    {
        match &self.current_value {
            Some(value) => value.is_null(),
            None => false,
        }
    }

    /// Returns the stream offset at which the current level ends.
    fn limit(&self) -> (limit: usize)
        requires
            self.wf(),
        ensures
            limit == self.spec_limit(),
    {
        if self.parents.len() == 0 {
            self.data.len()
        } else {
            self.parents[self.parents.len() - 1].end
        }
    }

    /// Returns the bytes of the current level that the reader has not passed,
    /// as a buffer.
    fn remaining(&self) -> (buffer: ImmutableBuffer<'a>)
        requires
            self.wf(),
        ensures
            buffer@ == self.spec_remaining(),
            buffer.spec_offset() == self.spec_position(),
            buffer.wf(),
    {
        let limit = self.limit();
        ImmutableBuffer::new_with_offset(
            vstd::slice::slice_subrange(self.data, self.position, limit),
            self.position,
        )
    }

    /// What every call of `next` keeps and ensures: the stream and the
    /// containers stay, the position does not go back, and it moves forward
    /// whenever an item is found. After an error the reader is where it was,
    /// positioned over nothing.
    pub open spec fn advanced(pre: Self, post: Self, r: IonResult<RawStreamItem>) -> bool {
        &&& post.wf()
        &&& post.spec_data() == pre.spec_data()
        &&& post.spec_parents() == pre.spec_parents()
        &&& post.spec_position() >= pre.spec_position()
        &&& r is Ok && !(r->Ok_0 is Nothing) ==> post.spec_position() > pre.spec_position()
        &&& r is Ok && r->Ok_0 is Nothing ==> post.spec_position() == post.spec_limit()
        &&& r is Ok ==> (post.spec_current() is Some <==> r->Ok_0 is Value || r->Ok_0 is Null)
        &&& r is Ok && post.spec_current() is Some ==> r->Ok_0
            == RawStreamItem::spec_nullable_value(
            post.spec_current()->Some_0.layout().ion_type,
            post.spec_current()->Some_0.layout().is_null(),
        )
        &&& r is Err ==> post.spec_position() == pre.spec_position() && post.spec_current() is None
    }

    /// What `next` does at the top level.
    pub open spec fn advanced_at_top_level(
        pre: Self,
        post: Self,
        r: IonResult<RawStreamItem>,
    ) -> bool {
        match next_item(pre.spec_remaining()) {
            Ok(ItemLayout::VersionMarker { padding, major, minor }) => if major == 1 && minor == 0 {
                &&& r == Ok::<RawStreamItem, IonError>(RawStreamItem::VersionMarker(1, 0))
                &&& post.spec_current() is None
                &&& post.spec_position() == pre.spec_position() + padding + 4
                &&& post.spec_ion_version() == (1u8, 0u8)
            } else {
                r == Err::<RawStreamItem, IonError>(IonError::Decoding)
            },
            Ok(ItemLayout::Value(child)) => {
                &&& r == Ok::<RawStreamItem, IonError>(
                    RawStreamItem::spec_nullable_value(child.value.ion_type, child.value.is_null()),
                )
                &&& post.spec_current() is Some
                &&& post.spec_current()->Some_0.layout() == child.value
                &&& post.spec_current()->Some_0.encoded_value.field_id is None
                &&& post.spec_position() == pre.spec_position() + child.consumed()
                &&& post.spec_ion_version() == pre.spec_ion_version()
            },
            Ok(ItemLayout::EndOfStream { padding }) => {
                &&& r == Ok::<RawStreamItem, IonError>(RawStreamItem::Nothing)
                &&& post.spec_current() is None
                &&& post.spec_ion_version() == pre.spec_ion_version()
            },
            Err(ParseFault::Incomplete) => r == Err::<RawStreamItem, IonError>(
                IonError::Incomplete { offset: pre.spec_position() as usize },
            ),
            Err(ParseFault::Malformed) => r == Err::<RawStreamItem, IonError>(IonError::Decoding),
        }
    }

    /// What `next` does in a struct.
    pub open spec fn advanced_in_struct(pre: Self, post: Self, r: IonResult<RawStreamItem>) -> bool {
        &&& post.spec_ion_version() == pre.spec_ion_version()
        &&& match next_field(pre.spec_remaining()) {
            Ok(Some(field)) => {
                &&& r == Ok::<RawStreamItem, IonError>(
                    RawStreamItem::spec_nullable_value(field.value.ion_type, field.value.is_null()),
                )
                &&& post.spec_current() is Some
                &&& post.spec_current()->Some_0.layout() == field.value
                &&& post.spec_current()->Some_0.encoded_value.field_id == Some(
                    field.field_id as usize,
                )
                &&& post.spec_position() == pre.spec_position() + field.consumed()
            },
            Ok(None) => r == Ok::<RawStreamItem, IonError>(RawStreamItem::Nothing),
            Err(_) => r == Err::<RawStreamItem, IonError>(IonError::Decoding),
        }
    }

    /// What `next` does in a list or an s-expression.
    pub open spec fn advanced_in_sequence(
        pre: Self,
        post: Self,
        r: IonResult<RawStreamItem>,
    ) -> bool {
        &&& post.spec_ion_version() == pre.spec_ion_version()
        &&& match next_child(pre.spec_remaining()) {
            Ok(Some(child)) => {
                &&& r == Ok::<RawStreamItem, IonError>(
                    RawStreamItem::spec_nullable_value(child.value.ion_type, child.value.is_null()),
                )
                &&& post.spec_current() is Some
                &&& post.spec_current()->Some_0.layout() == child.value
                &&& post.spec_current()->Some_0.encoded_value.field_id is None
                &&& post.spec_position() == pre.spec_position() + child.consumed()
            },
            Ok(None) => r == Ok::<RawStreamItem, IonError>(RawStreamItem::Nothing),
            Err(_) => r == Err::<RawStreamItem, IonError>(IonError::Decoding),
        }
    }

    /// Moves the reader to the next value of the current level and returns
    /// what it is positioned over then.
    ///
    /// At the top level, NOP padding is skipped and a version marker is an
    /// item of its own; it must name version 1.0. In a container, each child
    /// is an item, and in a struct it comes with its field ID. When nothing is
    /// left at the current level, the reader is positioned over nothing, at the
    /// end of the level.
    ///
    /// When the input ends inside an item of the top level, the error is
    /// `Incomplete` with the position of the reader. A child that does not end
    /// within its container is malformed. After an error the reader is where
    /// it was, positioned over nothing.
    pub fn next(&mut self) -> (r: IonResult<RawStreamItem>)
        requires
            old(self).wf(),
        ensures
            Self::advanced(*old(self), *final(self), r),
            old(self).spec_depth() == 0 ==> Self::advanced_at_top_level(
                *old(self),
                *final(self),
                r,
            ),
            old(self).spec_depth() > 0 && old(self).spec_parents().last().ion_type is Struct
                ==> Self::advanced_in_struct(*old(self), *final(self), r),
            old(self).spec_depth() > 0 && !(old(self).spec_parents().last().ion_type is Struct)
                ==> Self::advanced_in_sequence(*old(self), *final(self), r),
    {
        if self.parents.len() == 0 {
            self.next_at_top_level()
        } else {
            self.next_in_container()
        }
    }

    #[verifier::rlimit(60)]
    fn next_at_top_level(&mut self) -> (r: IonResult<RawStreamItem>)
        requires
            old(self).wf(),
            old(self).spec_depth() == 0,
        ensures
            Self::advanced(*old(self), *final(self), r),
            Self::advanced_at_top_level(*old(self), *final(self), r),
    {
        let buffer = self.remaining();
        let limit = self.limit();
        self.current_value = None;
        let mut lazy_reader = LazyRawBinaryReader_1_0::new_with_offset(
            buffer.bytes(),
            self.position,
        );
        match lazy_reader.next() {
            Ok(LazyRawStreamItem::VersionMarker(major, minor)) => {
                self.ion_version = (major, minor);
                self.position = lazy_reader.position();
                Ok(RawStreamItem::VersionMarker(major, minor))
            },
            Ok(LazyRawStreamItem::Value(value)) => {
                self.position = lazy_reader.position();
                assert(value.input@ =~= self.data@.subrange(
                    value.input.spec_offset() as int,
                    limit as int,
                ));
                self.current_value = Some(value);
                Ok(RawStreamItem::nullable_value(value.ion_type(), value.is_null()))
            },
            Ok(LazyRawStreamItem::EndOfStream(_)) => {
                self.position = limit;
                Ok(RawStreamItem::Nothing)
            },
            Err(error) => Err(error),
        }
    }

    #[verifier::rlimit(50)]
    fn next_in_container(&mut self) -> (r: IonResult<RawStreamItem>)
        requires
            old(self).wf(),
            old(self).spec_depth() > 0,
        ensures
            Self::advanced(*old(self), *final(self), r),
            old(self).spec_parents().last().ion_type is Struct ==> Self::advanced_in_struct(
                *old(self),
                *final(self),
                r,
            ),
            !(old(self).spec_parents().last().ion_type is Struct) ==> Self::advanced_in_sequence(
                *old(self),
                *final(self),
                r,
            ),
    {
        let buffer = self.remaining();
        let is_struct = match self.parents[self.parents.len() - 1].ion_type {
            IonType::Struct => true,
            _ => false,
        };
        if is_struct {
            let matched = buffer.peek_field();
            self.settle_on(matched, buffer)
        } else {
            let matched = buffer.peek_sequence_value();
            self.settle_on(matched, buffer)
        }
    }

    /// Positions the reader over the value that was matched in `buffer`, the
    /// rest of the current level; over nothing, at the end of the level, when
    /// none was matched.
    #[verifier::rlimit(50)]
    fn settle_on(
        &mut self,
        matched: IonResult<Option<LazyRawBinaryValue_1_0<'a>>>,
        buffer: ImmutableBuffer<'a>,
    ) -> (r: IonResult<RawStreamItem>)
        requires
            old(self).wf(),
            buffer@ == old(self).spec_remaining(),
            buffer.spec_offset() == old(self).spec_position(),
            buffer.wf(),
            matched is Ok && matched->Ok_0 is Some ==> {
                let value = matched->Ok_0->Some_0;
                &&& value.wf()
                &&& value.input.spec_offset() >= buffer.spec_offset()
                &&& value.input.is_rest_of(buffer, value.input.spec_offset() - buffer.spec_offset())
            },
        ensures
            Self::advanced(*old(self), *final(self), r),
            final(self).spec_ion_version() == old(self).spec_ion_version(),
            match matched {
                Ok(Some(value)) => {
                    &&& r == Ok::<RawStreamItem, IonError>(
                        RawStreamItem::spec_nullable_value(
                            value.layout().ion_type,
                            value.layout().is_null(),
                        ),
                    )
                    &&& final(self).spec_current() == Some(value)
                    &&& final(self).spec_position() == value.input.spec_offset()
                        + value.encoded_value.total_length
                },
                Ok(None) => r == Ok::<RawStreamItem, IonError>(RawStreamItem::Nothing),
                Err(_) => r == Err::<RawStreamItem, IonError>(IonError::Decoding),
            },
    {
        let limit = self.limit();
        self.current_value = None;
        match matched {
            Ok(Some(value)) => {
                self.position = value.input.offset() + value.encoded_value.total_length;
                assert(value.input@ =~= self.data@.subrange(
                    value.input.spec_offset() as int,
                    limit as int,
                ));
                self.current_value = Some(value);
                Ok(RawStreamItem::nullable_value(value.ion_type(), value.is_null()))
            },
            Ok(None) => {
                self.position = limit;
                Ok(RawStreamItem::Nothing)
            },
            Err(_) => Err(IonError::Decoding),
        }
    }

    /// Returns the annotations of the value that the reader is positioned
    /// over, as symbol IDs in the order of the bytes; none when the reader is
    /// positioned over nothing. A malformed annotation is a decoding error.
    pub fn annotations(&self) -> (r: IonResult<Vec<SymbolId>>)
        requires
            self.wf(),
        ensures
            match self.spec_current() {
                None => r is Ok && r->Ok_0@.len() == 0,
                Some(value) => match annotation_ids(value.spec_annotations_bytes()) {
                    Some(ids) => r is Ok && r->Ok_0@.len() == ids.len() && forall|i: int|
                        0 <= i < ids.len() ==> r->Ok_0@[i] == ids[i],
                    None => r == Err::<Vec<SymbolId>, IonError>(IonError::Decoding),
                },
            },
    {
        match &self.current_value {
            None => Ok(Vec::new()),
            Some(value) => {
                let mut iterator = value.annotations();
                iterator.collect()
            },
        }
    }

    /// Returns the field ID of the value that the reader is positioned over.
    /// Outside a struct, and over nothing, this is an illegal operation.
    pub fn field_name(&self) -> (r: IonResult<RawSymbolTokenRef<'a>>)
        ensures
            match self.spec_current() {
                Some(value) => match value.encoded_value.field_id {
                    Some(field_id) => r == Ok::<RawSymbolTokenRef<'a>, IonError>(
                        RawSymbolTokenRef::SymbolId(field_id),
                    ),
                    None => r == Err::<RawSymbolTokenRef<'a>, IonError>(
                        IonError::IllegalOperation,
                    ),
                },
                None => r == Err::<RawSymbolTokenRef<'a>, IonError>(IonError::IllegalOperation),
            },
    {
        match &self.current_value {
            Some(value) => match value.encoded_value.field_id {
                Some(field_id) => Ok(RawSymbolTokenRef::SymbolId(field_id)),
                None => Err(IonError::IllegalOperation),
            },
            None => Err(IonError::IllegalOperation),
        }
    }

    /// Decodes the value that the reader is positioned over. Over nothing,
    /// this is an illegal operation.
    pub fn read_value(&self) -> (r: IonResult<RawValueRef<'a>>)
        requires
            self.wf(),
        ensures
            match self.spec_current() {
                Some(value) => match decode_body(value.encoded_value.opcode, value.spec_body()) {
                    Some(view) => r is Ok && r->Ok_0@ == view,
                    None => r is Err && r->Err_0 == IonError::Decoding,
                },
                None => r is Err && r->Err_0 == IonError::IllegalOperation,
            },
            r is Ok ==> match r->Ok_0 {
                RawValueRef::Int(i) => i.wf(),
                RawValueRef::Decimal(d) => d.wf(),
                RawValueRef::Timestamp(t) => t.wf(),
                RawValueRef::List(l) => Some(l.sequence.value) == self.spec_current(),
                RawValueRef::SExp(s) => Some(s.sequence.value) == self.spec_current(),
                RawValueRef::Struct(s) => Some(s.value) == self.spec_current(),
                _ => true,
            },
    {
        match &self.current_value {
            Some(value) => value.read(),
            None => Err(IonError::IllegalOperation),
        }
    }

    /// Steps into the container that the reader is positioned over. The
    /// reader is then positioned over nothing, before the first child.
    ///
    /// Over nothing, over a scalar and over a null this is an illegal
    /// operation, and the reader stays as it is.
    #[verifier::rlimit(50)]
    pub fn step_in(&mut self) -> (r: IonResult<()>)
        requires
            old(self).wf(),
        ensures
            final(self).wf(),
            final(self).spec_data() == old(self).spec_data(),
            final(self).spec_ion_version() == old(self).spec_ion_version(),
            match old(self).spec_current() {
                Some(value) => if value.layout().ion_type.spec_is_container()
                    && !value.layout().is_null() {
                    &&& r is Ok
                    &&& final(self).spec_parents() == old(self).spec_parents().push(
                        ParentContainer {
                            ion_type: value.layout().ion_type,
                            end: value.encoded_value.spec_value_end() as usize,
                        },
                    )
                    &&& final(self).spec_position() == value.encoded_value.spec_value_offset()
                    &&& final(self).spec_current() is None
                    &&& final(self).spec_remaining() == value.spec_body()
                } else {
                    r == Err::<(), IonError>(IonError::IllegalOperation) && *final(self)
                        == *old(self)
                },
                None => r == Err::<(), IonError>(IonError::IllegalOperation) && *final(self)
                    == *old(self),
            },
    {
        let value = match self.current_value {
            Some(value) => value,
            None => {
                return Err(IonError::IllegalOperation);
            },
        };
        if !value.ion_type().is_container() || value.is_null() {
            return Err(IonError::IllegalOperation);
        }
        let end = value.encoded_value.value_end_exclusive();
        let ghost old_parents = self.parents@;
        self.parents.push(ParentContainer { ion_type: value.ion_type(), end });
        self.position = value.encoded_value.value_offset();
        self.current_value = None;
        proof {
            assert forall|i: int, j: int| 0 <= i < j
                < self.parents@.len() implies self.parents@[j].end
                <= self.parents@[i].end by {
                if j < old_parents.len() {
                    assert(self.parents@[j] == old_parents[j]);
                    assert(self.parents@[i] == old_parents[i]);
                } else {
                    if old_parents.len() > 0 {
                        assert(self.parents@[i] == old_parents[i]);
                        assert(old_parents[i].end >= old_parents.last().end);
                    }
                }
            }
            assert forall|i: int| 0 <= i
                < self.parents@.len() implies #[trigger] self.parents@[i].end
                <= self.data@.len() by {
                if i < old_parents.len() {
                    assert(self.parents@[i] == old_parents[i]);
                }
            }
            assert(self.spec_remaining() =~= value.spec_body());
        }
        Ok(())
    }

    /// Steps out of the container that the reader is in: the reader passes
    /// what is left of the container and is positioned over nothing, after the
    /// container's end.
    ///
    /// At the top level this is an illegal operation, and the reader stays
    /// as it is.
    #[verifier::rlimit(50)]
    pub fn step_out(&mut self) -> (r: IonResult<()>)
        requires
            old(self).wf(),
        ensures
            final(self).wf(),
            final(self).spec_data() == old(self).spec_data(),
            final(self).spec_ion_version() == old(self).spec_ion_version(),
            old(self).spec_depth() == 0 ==> r == Err::<(), IonError>(IonError::IllegalOperation)
                && *final(self) == *old(self),
            old(self).spec_depth() > 0 ==> {
                &&& r is Ok
                &&& final(self).spec_parents() == old(self).spec_parents().drop_last()
                &&& final(self).spec_position() == old(self).spec_limit()
                &&& final(self).spec_current() is None
            },
    {
        if self.parents.len() == 0 {
            return Err(IonError::IllegalOperation);
        }
        let ghost old_parents = self.parents@;
        let parent = self.parents[self.parents.len() - 1];
        self.parents.pop();
        self.position = parent.end;
        self.current_value = None;
        proof {
            assert(self.parents@ =~= old_parents.drop_last());
            assert forall|i: int| 0 <= i
                < self.parents@.len() implies #[trigger] self.parents@[i].end
                <= self.data@.len() by {
                assert(self.parents@[i] == old_parents[i]);
            }
            assert forall|i: int, j: int| 0 <= i < j
                < self.parents@.len() implies self.parents@[j].end
                <= self.parents@[i].end by {
                assert(self.parents@[j] == old_parents[j]);
                assert(self.parents@[i] == old_parents[i]);
            }
            if self.parents@.len() > 0 {
                assert(self.parents@.last() == old_parents[old_parents.len() - 2]);
            }
        }
        Ok(())
    }
}

} // verus!
