//! Handles on the values that the user-level reader is positioned over.
//!
//! A handle borrows the reader. A [`ValueReader`] reads the value that the
//! reader is positioned over. A [`SequenceRef`] or a [`StructRef`] stands for
//! a container before the reader steps into it, and a [`SequenceReader`] or a
//! [`StructReader`] walks the children once it has.

use vstd::prelude::*;
use crate::reader::{StreamItem, UserReader, UserStreamItem};
use crate::result::{IonError, IonResult};
use crate::symbol::Symbol;
use crate::symbol_ref::SymbolRef;
use crate::types::decimal::Decimal;
use crate::types::integer::{FloatBits, Int};
use crate::types::timestamp::Timestamp;
use crate::types::value_ref::{ReadValueRef, ValueRef, ValueView};
use crate::types::IonType;

verus! {

/// A handle on the value that a reader is positioned over. The value is not
/// decoded until the handle is asked for it.
#[derive(Debug)]
pub struct ValueReader<'r, 'a> {
    /// The number of containers that the reader was in when the handle was
    /// made.
    pub depth: usize,
    pub reader: &'r mut UserReader<'a>,
}

impl<'r, 'a> ValueReader<'r, 'a> {
    pub fn new(reader: &'r mut UserReader<'a>) -> (value: Self)
        ensures
            value.depth == old(reader).spec_raw().spec_depth(),
            *value.reader == *old(reader),
            *final(value.reader) == *final(reader),
    {
        ValueReader { depth: reader.depth(), reader }
    }

    /// Returns the type of the value; `None` when the reader is positioned
    /// over nothing.
    pub fn ion_type(&self) -> (ion_type: Option<IonType>)
        ensures
            ion_type == match old(self.reader).spec_raw().spec_current() {
                Some(value) => Some(value.layout().ion_type),
                None => None,
            },
    {
        self.reader.ion_type()
    }

    /// Reports whether the value is a null.
    pub fn is_null(&self) -> (is_null: bool)
        ensures
            is_null == match old(self.reader).spec_raw().spec_current() {
                Some(value) => value.layout().is_null(),
                None => false,
            },
    {
        self.reader.is_null()
    }

    /// Returns the annotations of the value, resolved in the symbol table.
    pub fn annotations(&self) -> (r: IonResult<Vec<Symbol>>)
        requires
            old(self.reader).wf(),
        ensures
            old(self.reader).annotations_read(r),
    {
        self.reader.annotations()
    }

    /// Reads the value. A container comes as a handle that borrows the
    /// reader.
    pub fn read(&mut self) -> (r: IonResult<ValueRef<'_, 'a>>)
        requires
            old(self).reader.wf(),
        ensures
            old(self).reader.value_read(r),
            final(self).depth == old(self).depth,
            *final(final(self).reader) == *final(old(self).reader),
            match r {
                Ok(ValueRef::List(handle)) => *handle.reader == *old(self).reader && *final(handle.reader) == *final(self).reader,
                Ok(ValueRef::SExp(handle)) => *handle.reader == *old(self).reader && *final(handle.reader) == *final(self).reader,
                Ok(ValueRef::Struct(handle)) => *handle.reader == *old(self).reader && *final(handle.reader) == *final(self).reader,
                _ => *final(self).reader == *old(self).reader,
            },
    {
        self.reader.read_value()
    }

    /// True when the reader is positioned over a container of the given type
    /// that is not null.
    pub open spec fn is_over(reader: UserReader<'a>, ion_type: IonType) -> bool {
        match reader.spec_raw().spec_current() {
            Some(value) => value.layout().ion_type == ion_type && !value.layout().is_null(),
            None => false,
        }
    }

    /// Reports whether the reader is positioned over a container of the
    /// given type that is not null.
    fn over(&self, ion_type: IonType) -> (b: bool)
        ensures
            b == Self::is_over(*old(self.reader), ion_type),
    {
        match self.reader.ion_type() {
            Some(found) => found == ion_type && !self.reader.is_null(),
            None => false,
        }
    }

    /// Returns a handle on the list that the reader is positioned over. Over
    /// anything else this is an illegal operation.
    pub fn as_list(self) -> (r: IonResult<SequenceRef<'r, 'a>>)
        ensures
            r is Ok == Self::is_over(*old(self.reader), IonType::List),
            r is Err ==> r->Err_0 == IonError::IllegalOperation && *final(self.reader)
                == *old(self.reader),
            r is Ok ==> *r->Ok_0.reader == *old(self.reader) && *final(r->Ok_0.reader)
                == *final(self.reader),
    {
        if self.over(IonType::List) {
            Ok(SequenceRef { reader: self.reader })
        } else {
            Err(IonError::IllegalOperation)
        }
    }

    /// Returns a handle on the s-expression that the reader is positioned
    /// over. Over anything else this is an illegal operation.
    pub fn as_sexp(self) -> (r: IonResult<SequenceRef<'r, 'a>>)
        ensures
            r is Ok == Self::is_over(*old(self.reader), IonType::SExp),
            r is Err ==> r->Err_0 == IonError::IllegalOperation && *final(self.reader)
                == *old(self.reader),
            r is Ok ==> *r->Ok_0.reader == *old(self.reader) && *final(r->Ok_0.reader)
                == *final(self.reader),
    {
        if self.over(IonType::SExp) {
            Ok(SequenceRef { reader: self.reader })
        } else {
            Err(IonError::IllegalOperation)
        }
    }

    /// Returns a handle on the struct that the reader is positioned over.
    /// Over anything else this is an illegal operation.
    pub fn as_struct(self) -> (r: IonResult<StructRef<'r, 'a>>)
        ensures
            r is Ok == Self::is_over(*old(self.reader), IonType::Struct),
            r is Err ==> r->Err_0 == IonError::IllegalOperation && *final(self.reader)
                == *old(self.reader),
            r is Ok ==> *r->Ok_0.reader == *old(self.reader) && *final(r->Ok_0.reader)
                == *final(self.reader),
    {
        if self.over(IonType::Struct) {
            Ok(StructRef { reader: self.reader })
        } else {
            Err(IonError::IllegalOperation)
        }
    }
}

/// A list or an s-expression that the reader is positioned over and has not
/// stepped into.
#[derive(Debug)]
pub struct SequenceRef<'r, 'a> {
    pub reader: &'r mut UserReader<'a>,
}

impl<'r, 'a> SequenceRef<'r, 'a> {
    pub fn new(reader: &'r mut UserReader<'a>) -> (sequence: Self)
        ensures
            *sequence.reader == *old(reader),
            *final(sequence.reader) == *final(reader),
    {
        SequenceRef { reader }
    }

    /// Steps into the sequence and returns a reader of its children. When
    /// the reader is not positioned over a container that is not null, this is
    /// an illegal operation, and the reader stays as it is.
    pub fn reader(self) -> (r: IonResult<SequenceReader<'r, 'a>>)
        requires
            old(self.reader).wf(),
        ensures
            match old(self.reader).spec_raw().spec_current() {
                Some(value) => if value.layout().ion_type.spec_is_container()
                    && !value.layout().is_null() {
                    &&& r is Ok
                    &&& r->Ok_0.reader.wf()
                    &&& r->Ok_0.depth == old(self.reader).spec_raw().spec_depth() + 1
                    &&& r->Ok_0.reader.spec_raw().spec_depth() == r->Ok_0.depth
                    &&& r->Ok_0.reader.spec_raw().spec_remaining() == value.spec_body()
                    &&& r->Ok_0.reader.spec_table() == old(self.reader).spec_table()
                    &&& *final(r->Ok_0.reader) == *final(self.reader)
                } else {
                    r is Err && r->Err_0 == IonError::IllegalOperation
                        && final(self.reader).spec_raw() == old(self.reader).spec_raw()
                },
                None => r is Err && r->Err_0 == IonError::IllegalOperation
                    && final(self.reader).spec_raw() == old(self.reader).spec_raw(),
            },
    {
        let SequenceRef { reader } = self;
        match reader.step_in() {
            Ok(_) => Ok(SequenceReader::new(reader)),
            Err(error) => Err(error),
        }
    }
}

/// A struct that the reader is positioned over and has not stepped into.
#[derive(Debug)]
pub struct StructRef<'r, 'a> {
    pub reader: &'r mut UserReader<'a>,
}

impl<'r, 'a> StructRef<'r, 'a> {
    pub fn new(reader: &'r mut UserReader<'a>) -> (structure: Self)
        ensures
            *structure.reader == *old(reader),
            *final(structure.reader) == *final(reader),
    {
        StructRef { reader }
    }

    /// Steps into the struct and returns a reader of its fields. When the
    /// reader is not positioned over a container that is not null, this is an
    /// illegal operation, and the reader stays as it is.
    pub fn reader(self) -> (r: IonResult<StructReader<'r, 'a>>)
        requires
            old(self.reader).wf(),
        ensures
            match old(self.reader).spec_raw().spec_current() {
                Some(value) => if value.layout().ion_type.spec_is_container()
                    && !value.layout().is_null() {
                    &&& r is Ok
                    &&& r->Ok_0.reader.wf()
                    &&& r->Ok_0.depth == old(self.reader).spec_raw().spec_depth() + 1
                    &&& r->Ok_0.reader.spec_raw().spec_depth() == r->Ok_0.depth
                    &&& r->Ok_0.reader.spec_raw().spec_remaining() == value.spec_body()
                    &&& r->Ok_0.reader.spec_table() == old(self.reader).spec_table()
                    &&& *final(r->Ok_0.reader) == *final(self.reader)
                } else {
                    r is Err && r->Err_0 == IonError::IllegalOperation
                        && final(self.reader).spec_raw() == old(self.reader).spec_raw()
                },
                None => r is Err && r->Err_0 == IonError::IllegalOperation
                    && final(self.reader).spec_raw() == old(self.reader).spec_raw(),
            },
    {
        let StructRef { reader } = self;
        match reader.step_in() {
            Ok(_) => Ok(StructReader::new(reader)),
            Err(error) => Err(error),
        }
    }
}

/// Walks the children of a list or an s-expression that the reader has
/// stepped into.
#[derive(Debug)]
pub struct SequenceReader<'r, 'a> {
    /// The number of containers that the reader is in at the level of the
    /// children.
    pub depth: usize,
    pub reader: &'r mut UserReader<'a>,
}

impl<'r, 'a> SequenceReader<'r, 'a> {
    pub fn new(reader: &'r mut UserReader<'a>) -> (sequence: Self)
        ensures
            sequence.depth == old(reader).spec_raw().spec_depth(),
            *sequence.reader == *old(reader),
            *final(sequence.reader) == *final(reader),
    {
        SequenceReader { depth: reader.depth(), reader }
    }

    /// Moves to the next child and returns a handle on it; `None` when no
    /// child is left. When the reader is inside a child, it steps out of it
    /// first.
    pub fn next_element(&mut self) -> (r: IonResult<Option<ValueReader<'_, 'a>>>)
        requires
            old(self).reader.wf(),
        ensures
            final(self).depth == old(self).depth,
            *final(final(self).reader) == *final(old(self).reader),
            match r {
                Ok(Some(value)) => {
                    &&& value.reader.wf()
                    &&& value.reader.spec_raw().spec_current() is Some
                    &&& *final(value.reader) == *final(self).reader
                    &&& value.depth == value.reader.spec_raw().spec_depth()
                    &&& UserReader::child_step(
                        *old(self).reader,
                        *value.reader,
                        old(self).depth as nat,
                        Ok(value.reader.spec_current_item()),
                    )
                },
                Ok(None) => final(self).reader.wf() && UserReader::child_step(
                    *old(self).reader,
                    *final(self).reader,
                    old(self).depth as nat,
                    Ok(UserStreamItem::Nothing),
                ),
                Err(error) => final(self).reader.wf() && UserReader::child_step(
                    *old(self).reader,
                    *final(self).reader,
                    old(self).depth as nat,
                    Err(error),
                ),
            },
    {
        match self.reader.next_at_depth(self.depth) {
            Ok(UserStreamItem::Nothing) => Ok(None),
            Ok(UserStreamItem::Value(_)) => {
                Ok(Some(ValueReader::new(&mut *self.reader)))
            },
            Ok(UserStreamItem::Null(_)) => {
                Ok(Some(ValueReader::new(&mut *self.reader)))
            },
            Err(error) => Err(error),
        }
    }

    /// Moves to the next child and reads it; `None` when no child is left. A
    /// container comes as a handle that borrows the reader.
    pub fn read_next_element(&mut self) -> (r: IonResult<Option<ValueRef<'_, 'a>>>)
        requires
            old(self).reader.wf(),
        ensures
            final(self).depth == old(self).depth,
            *final(final(self).reader) == *final(old(self).reader),
            match r {
                Ok(Some(value)) => exists|middle: UserReader<'a>|
                    {
                        &&& #[trigger] UserReader::child_step(
                            *old(self).reader,
                            middle,
                            old(self).depth as nat,
                            Ok(middle.spec_current_item()),
                        )
                        &&& !(middle.spec_current_item() is Nothing)
                        &&& middle.wf()
                        &&& middle.value_read(Ok(value))
                        &&& match value {
                            ValueRef::List(handle) => *handle.reader == middle && *final(handle.reader) == *final(self).reader,
                            ValueRef::SExp(handle) => *handle.reader == middle && *final(handle.reader) == *final(self).reader,
                            ValueRef::Struct(handle) => *handle.reader == middle && *final(handle.reader) == *final(self).reader,
                            _ => *final(self).reader == middle,
                        }
                    },
                Ok(None) => final(self).reader.wf() && UserReader::child_step(
                    *old(self).reader,
                    *final(self).reader,
                    old(self).depth as nat,
                    Ok(UserStreamItem::Nothing),
                ),
                Err(error) => final(self).reader.wf() && (UserReader::child_step(
                    *old(self).reader,
                    *final(self).reader,
                    old(self).depth as nat,
                    Err(error),
                ) || {
                    &&& UserReader::child_step(
                        *old(self).reader,
                        *final(self).reader,
                        old(self).depth as nat,
                        Ok(final(self).reader.spec_current_item()),
                    )
                    &&& !(final(self).reader.spec_current_item() is Nothing)
                    &&& final(self).reader.value_read(Err(error))
                }),
            },
    {
        match self.reader.next_at_depth(self.depth) {
            Ok(UserStreamItem::Nothing) => Ok(None),
            Ok(_) => match self.reader.read_value() {
                Ok(value) => Ok(Some(value)),
                Err(error) => Err(error),
            },
            Err(error) => Err(error),
        }
    }
}

/// Walks the fields of a struct that the reader has stepped into.
#[derive(Debug)]
pub struct StructReader<'r, 'a> {
    /// The number of containers that the reader is in at the level of the
    /// fields.
    pub depth: usize,
    pub reader: &'r mut UserReader<'a>,
}

impl<'r, 'a> StructReader<'r, 'a> {
    pub fn new(reader: &'r mut UserReader<'a>) -> (structure: Self)
        ensures
            structure.depth == old(reader).spec_raw().spec_depth(),
            *structure.reader == *old(reader),
            *final(structure.reader) == *final(reader),
    {
        StructReader { depth: reader.depth(), reader }
    }

    /// Moves to the next field and returns a handle on it; `None` when no
    /// field is left. When the reader is inside the value of a field, it steps
    /// out of it first.
    pub fn next_field(&mut self) -> (r: IonResult<Option<FieldReader<'_, 'a>>>)
        requires
            old(self).reader.wf(),
        ensures
            final(self).depth == old(self).depth,
            *final(final(self).reader) == *final(old(self).reader),
            match r {
                Ok(Some(field)) => {
                    &&& field.reader.wf()
                    &&& field.reader.spec_raw().spec_current() is Some
                    &&& *final(field.reader) == *final(self).reader
                    &&& UserReader::child_step(
                        *old(self).reader,
                        *field.reader,
                        old(self).depth as nat,
                        Ok(field.reader.spec_current_item()),
                    )
                },
                Ok(None) => final(self).reader.wf() && UserReader::child_step(
                    *old(self).reader,
                    *final(self).reader,
                    old(self).depth as nat,
                    Ok(UserStreamItem::Nothing),
                ),
                Err(error) => final(self).reader.wf() && UserReader::child_step(
                    *old(self).reader,
                    *final(self).reader,
                    old(self).depth as nat,
                    Err(error),
                ),
            },
    {
        match self.reader.next_at_depth(self.depth) {
            Ok(UserStreamItem::Nothing) => Ok(None),
            Ok(UserStreamItem::Value(_)) => {
                Ok(Some(FieldReader::new(&mut *self.reader)))
            },
            Ok(UserStreamItem::Null(_)) => {
                Ok(Some(FieldReader::new(&mut *self.reader)))
            },
            Err(error) => Err(error),
        }
    }
}

/// A handle on the field that a reader is positioned over.
#[derive(Debug)]
pub struct FieldReader<'r, 'a> {
    pub reader: &'r mut UserReader<'a>,
}

impl<'r, 'a> FieldReader<'r, 'a> {
    pub fn new(reader: &'r mut UserReader<'a>) -> (field: Self)
        ensures
            *field.reader == *old(reader),
            *final(field.reader) == *final(reader),
    {
        FieldReader { reader }
    }

    /// Returns the name of the field, resolved in the symbol table.
    pub fn read_name(&self) -> (r: IonResult<SymbolRef<'_>>)
        ensures
            old(self.reader).field_name_read(r),
    {
        self.reader.field_name()
    }

    /// Reads the value of the field. A container comes as a handle that
    /// borrows the reader.
    pub fn read_value(&mut self) -> (r: IonResult<ValueRef<'_, 'a>>)
        requires
            old(self).reader.wf(),
        ensures
            old(self).reader.value_read(r),
            *final(final(self).reader) == *final(old(self).reader),
            match r {
                Ok(ValueRef::List(handle)) => *handle.reader == *old(self).reader && *final(handle.reader) == *final(self).reader,
                Ok(ValueRef::SExp(handle)) => *handle.reader == *old(self).reader && *final(handle.reader) == *final(self).reader,
                Ok(ValueRef::Struct(handle)) => *handle.reader == *old(self).reader && *final(handle.reader) == *final(self).reader,
                _ => *final(self).reader == *old(self).reader,
            },
    {
        self.reader.read_value()
    }

    /// Returns a handle on the value of the field.
    pub fn value(&mut self) -> (value: ValueReader<'_, 'a>)
        ensures
            value.depth == old(self).reader.spec_raw().spec_depth(),
            *value.reader == *old(self).reader,
            *final(value.reader) == *final(self).reader,
            *final(final(self).reader) == *final(old(self).reader),
    {
        ValueReader::new(&mut *self.reader)
    }
}

impl<'a> UserReader<'a> {
    /// Advances the reader to the next user value of the current level,
    /// acting on the version markers and the local symbol tables on the way,
    /// and returns a handle by which to read the value; `Nothing` when nothing
    /// is left at the level.
    pub fn next(&mut self) -> (r: IonResult<StreamItem<'_, 'a>>)
        requires
            old(self).wf(),
        ensures
            match r {
                Ok(StreamItem::Value(value)) => {
                    &&& value.reader.wf()
                    &&& value.reader.spec_raw().spec_current() is Some
                    &&& *final(value.reader) == *final(self)
                    &&& value.depth == value.reader.spec_raw().spec_depth()
                    &&& Self::user_step(
                        *old(self),
                        *value.reader,
                        Ok(value.reader.spec_current_item()),
                    )
                },
                Ok(StreamItem::Nothing) => final(self).wf() && Self::user_step(
                    *old(self),
                    *final(self),
                    Ok(UserStreamItem::Nothing),
                ),
                Err(error) => final(self).wf() && Self::user_step(
                    *old(self),
                    *final(self),
                    Err(error),
                ),
            },
    {
        match self.next_user_item() {
            Ok(UserStreamItem::Nothing) => Ok(StreamItem::Nothing),
            Ok(UserStreamItem::Value(_)) => {
                Ok(StreamItem::Value(ValueReader::new(self)))
            },
            Ok(UserStreamItem::Null(_)) => {
                Ok(StreamItem::Value(ValueReader::new(self)))
            },
            Err(error) => Err(error),
        }
    }
}

impl<'r, 'a> ReadValueRef<'a> for ValueReader<'r, 'a> {
    open spec fn is_readable(&self) -> bool {
        self.reader.wf()
    }

    open spec fn outcome(&self) -> Result<ValueView, IonError> {
        self.reader.outcome()
    }

    open spec fn spec_reader(&self) -> UserReader<'a> {
        *self.reader
    }

    fn read_value(&mut self) -> (r: IonResult<ValueRef<'_, 'a>>) {
        self.read()
    }

    fn read_null(&mut self) -> (r: IonResult<IonType>) {
        match self.read() {
            Ok(value) => value.expect_null(),
            Err(e) => Err(e),
        }
    }

    fn read_bool(&mut self) -> (r: IonResult<bool>) {
        match self.read() {
            Ok(value) => value.expect_bool(),
            Err(e) => Err(e),
        }
    }

    fn read_int(&mut self) -> (r: IonResult<Int>) {
        match self.read() {
            Ok(value) => value.expect_int(),
            Err(e) => Err(e),
        }
    }

    fn read_float(&mut self) -> (r: IonResult<FloatBits>) {
        match self.read() {
            Ok(value) => value.expect_float(),
            Err(e) => Err(e),
        }
    }

    fn read_decimal(&mut self) -> (r: IonResult<Decimal>) {
        match self.read() {
            Ok(value) => value.expect_decimal(),
            Err(e) => Err(e),
        }
    }

    fn read_timestamp(&mut self) -> (r: IonResult<Timestamp>) {
        match self.read() {
            Ok(value) => value.expect_timestamp(),
            Err(e) => Err(e),
        }
    }

    fn read_string(&mut self) -> (r: IonResult<&'a str>) {
        match self.read() {
            Ok(value) => value.expect_string(),
            Err(e) => Err(e),
        }
    }

    fn read_symbol(&mut self) -> (r: IonResult<Symbol>) {
        match self.read() {
            Ok(value) => value.expect_symbol(),
            Err(e) => Err(e),
        }
    }

    fn read_clob(&mut self) -> (r: IonResult<&'a [u8]>) {
        match self.read() {
            Ok(value) => value.expect_clob(),
            Err(e) => Err(e),
        }
    }

    fn read_blob(&mut self) -> (r: IonResult<&'a [u8]>) {
        match self.read() {
            Ok(value) => value.expect_blob(),
            Err(e) => Err(e),
        }
    }

    fn read_list(&mut self) -> (r: IonResult<SequenceRef<'_, 'a>>) {
        match self.read() {
            Ok(value) => value.expect_list(),
            Err(e) => Err(e),
        }
    }

    fn read_sexp(&mut self) -> (r: IonResult<SequenceRef<'_, 'a>>) {
        match self.read() {
            Ok(value) => value.expect_sexp(),
            Err(e) => Err(e),
        }
    }

    fn read_struct(&mut self) -> (r: IonResult<StructRef<'_, 'a>>) {
        match self.read() {
            Ok(value) => value.expect_struct(),
            Err(e) => Err(e),
        }
    }
}

} // verus!
