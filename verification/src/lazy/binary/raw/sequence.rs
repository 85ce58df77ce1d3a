//! Lists and s-expressions of the raw level.

use vstd::prelude::*;
use crate::lazy::binary::immutable_buffer::ImmutableBuffer;
use crate::lazy::binary::layout::{children, next_child, ChildLayout};
use crate::lazy::binary::raw::annotations_iterator::RawBinaryAnnotationsIterator;
use crate::lazy::binary::raw::value::LazyRawBinaryValue_1_0;
use crate::lazy::decoder::{LazyContainerPrivate, Never, RawValueExpr};
use crate::result::{IonError, IonResult, ParseFault};
use crate::types::IonType;

verus! {

/// An expression in value position of Ion 1.0 binary data: always a value.
pub type LazyRawBinaryValueExpr_1_0<'top> = RawValueExpr<LazyRawBinaryValue_1_0<'top>, Never>;

/// A list or an s-expression whose children have not been matched yet.
#[derive(Debug, Clone, Copy)]
pub struct LazyRawBinarySequence_1_0<'top> {
    pub value: LazyRawBinaryValue_1_0<'top>,
}

impl<'top> LazyRawBinarySequence_1_0<'top> {
    /// The handle is well-formed and names a list or an s-expression that is
    /// not null.
    pub open spec fn wf(&self) -> bool {
        &&& self.value.wf()
        &&& (self.value.layout().ion_type is List || self.value.layout().ion_type is SExp)
    }

    /// Returns the type of the sequence.
    pub fn ion_type(&self) -> (t: IonType)
        ensures
            t == self.value.layout().ion_type,
    {
        self.value.ion_type()
    }

    /// Returns an iterator over the annotations of the sequence.
    pub fn annotations(&self) -> (iterator: RawBinaryAnnotationsIterator<'top>)
        requires
            self.value.wf(),
        ensures
            iterator@ == self.value.spec_annotations_bytes(),
            iterator.wf(),
    {
        self.value.annotations()
    }

    /// Returns an iterator over the children, which starts at the first.
    pub fn iter(&self) -> (iterator: RawBinarySequenceIterator_1_0<'top>)
        requires
            self.value.wf(),
        ensures
            iterator@ == self.value.spec_body(),
            iterator.wf(),
    {
        RawBinarySequenceIterator_1_0::new(self.value.available_body())
    }

    /// Returns the sequence as the value it was matched as.
    pub fn as_value(&self) -> (value: LazyRawBinaryValue_1_0<'top>)
        ensures
            value == self.value,
    {
        self.value
    }
}

/// A list of the raw level.
#[derive(Debug, Clone, Copy)]
pub struct LazyRawBinaryList_1_0<'top> {
    pub sequence: LazyRawBinarySequence_1_0<'top>,
}

impl<'top> LazyRawBinaryList_1_0<'top> {
    /// Returns an iterator over the children, which starts at the first.
    pub fn iter(&self) -> (iterator: RawBinarySequenceIterator_1_0<'top>)
        requires
            self.sequence.value.wf(),
        ensures
            iterator@ == self.sequence.value.spec_body(),
            iterator.wf(),
    {
        self.sequence.iter()
    }

    /// Returns the list as the value it was matched as.
    pub fn as_value(&self) -> (value: LazyRawBinaryValue_1_0<'top>)
        ensures
            value == self.sequence.value,
    {
        self.sequence.value
    }
}

/// An s-expression of the raw level.
#[derive(Debug, Clone, Copy)]
pub struct LazyRawBinarySExp_1_0<'top> {
    pub sequence: LazyRawBinarySequence_1_0<'top>,
}

impl<'top> LazyRawBinarySExp_1_0<'top> {
    /// Returns an iterator over the children, which starts at the first.
    pub fn iter(&self) -> (iterator: RawBinarySequenceIterator_1_0<'top>)
        requires
            self.sequence.value.wf(),
        ensures
            iterator@ == self.sequence.value.spec_body(),
            iterator.wf(),
    {
        self.sequence.iter()
    }

    /// Returns the s-expression as the value it was matched as.
    pub fn as_value(&self) -> (value: LazyRawBinaryValue_1_0<'top>)
        ensures
            value == self.sequence.value,
    {
        self.sequence.value
    }
}

/// Walks the children of a sequence in the order of the bytes. The iterator
/// holds the part of the body that it has not walked yet, and nothing else.
#[derive(Debug, Clone, Copy)]
pub struct RawBinarySequenceIterator_1_0<'top> {
    source: ImmutableBuffer<'top>,
}

impl<'top> View for RawBinarySequenceIterator_1_0<'top> {
    type V = Seq<u8>;

    /// The bytes of the body that are left.
    closed spec fn view(&self) -> Seq<u8> {
        self.source@
    }
}

impl<'top> RawBinarySequenceIterator_1_0<'top> {
    /// Every stream offset of what is left is a `usize`.
    pub closed spec fn wf(&self) -> bool {
        self.source.wf()
    }

    /// The stream offset of the first byte that is left.
    pub closed spec fn spec_offset(&self) -> usize {
        self.source.spec_offset()
    }

    /// An iterator over the children that `input` holds.
    pub fn new(input: ImmutableBuffer<'top>) -> (iterator: Self)
        requires
            input.wf(),
        ensures
            iterator@ == input@,
            iterator.spec_offset() == input.spec_offset(),
            iterator.wf(),
    {
        RawBinarySequenceIterator_1_0 { source: input }
    }

    /// Yields the next child. `None` says that none is left. After an error
    /// the iterator yields nothing more.
    #[verifier::rlimit(50)]
    pub fn next(&mut self) -> (r: Option<IonResult<LazyRawBinaryValueExpr_1_0<'top>>>)
        requires
            old(self).wf(),
        ensures
            final(self).wf(),
            match next_child(old(self)@) {
                Ok(None) => r is None && final(self)@.len() == 0,
                Ok(Some(child)) => {
                    &&& r is Some
                    &&& r->Some_0 is Ok
                    &&& r->Some_0->Ok_0 is ValueLiteral
                    &&& r->Some_0->Ok_0->ValueLiteral_0.layout() == child.value
                    &&& r->Some_0->Ok_0->ValueLiteral_0.wf()
                    &&& r->Some_0->Ok_0->ValueLiteral_0.encoded_value.field_id is None
                    &&& r->Some_0->Ok_0->ValueLiteral_0.input.spec_offset()
                        == old(self).spec_offset()
                        + child.padding
                    &&& r->Some_0->Ok_0->ValueLiteral_0.input@ == old(self)@.skip(
                        child.padding as int,
                    )
                    &&& 1 <= child.consumed() <= old(self)@.len()
                    &&& final(self)@ == old(self)@.skip(child.consumed() as int)
                    &&& final(self).spec_offset() == old(self).spec_offset() + child.consumed()
                },
                Err(fault) => {
                    &&& r is Some
                    &&& r->Some_0 is Err
                    &&& fault is Incomplete ==> r->Some_0->Err_0 == (IonError::Incomplete {
                        offset: old(self).spec_offset(),
                    })
                    &&& fault is Malformed ==> r->Some_0->Err_0 == IonError::Decoding
                    &&& final(self)@.len() == 0
                },
            },
    {
        match self.source.peek_sequence_value() {
            Ok(Some(lazy_value)) => {
                let consumed = lazy_value.input.offset() - self.source.offset()
                    + lazy_value.encoded_value.total_length;
                let rest = self.source.consume(consumed);
                self.source = rest;
                Some(Ok(RawValueExpr::ValueLiteral(lazy_value)))
            },
            Ok(None) => {
                self.source = self.source.consume(self.source.len());
                None
            },
            Err(error) => {
                self.source = self.source.consume(self.source.len());
                Some(Err(error))
            },
        }
    }

    /// Collects the children that are left into a vector.
    #[verifier::rlimit(50)]
    pub fn collect(&mut self) -> (r: IonResult<Vec<LazyRawBinaryValue_1_0<'top>>>)
        requires
            old(self).wf(),
        ensures
            final(self).wf(),
            match children(old(self)@) {
                Ok(layouts) => r is Ok && r->Ok_0@.len() == layouts.len() && forall|i: int|
                    0 <= i < layouts.len() ==> r->Ok_0@[i].layout() == layouts[i].value
                        && r->Ok_0@[i].wf(),
                Err(fault) => r is Err && (fault is Incomplete ==> r->Err_0 == (IonError::Incomplete {
                    offset: old(self).spec_offset(),
                })) && (fault is Malformed ==> r->Err_0 == IonError::Decoding),
            },
    {
        let mut values: Vec<LazyRawBinaryValue_1_0<'top>> = Vec::new();
        let ghost mut seen: Seq<ChildLayout> = Seq::empty();
        let start = self.source;
        loop
            invariant
                self.wf(),
                start.spec_offset() == old(self).spec_offset(),
                seen.len() == values@.len(),
                forall|i: int|
                    0 <= i < seen.len() ==> values@[i].layout() == seen[i].value && values@[i].wf(),
                match children(self@) {
                    Ok(rest) => children(old(self)@) == Ok::<Seq<ChildLayout>, ParseFault>(
                        seen + rest,
                    ),
                    Err(fault) => children(old(self)@) == Err::<Seq<ChildLayout>, ParseFault>(
                        fault,
                    ),
                },
            decreases self@.len(),
        {
            let ghost before = self@;
            match self.next() {
                None => {
                    assert(seen + Seq::<ChildLayout>::empty() =~= seen);
                    return Ok(values);
                },
                Some(Ok(expr)) => {
                    match expr {
                        RawValueExpr::ValueLiteral(value) => {
                            proof {
                                let child = next_child(before)->Ok_0->Some_0;
                                let rest = children(before.skip(child.consumed() as int));
                                if rest is Ok {
                                    assert(seen + (seq![child] + rest->Ok_0) =~= seen.push(child)
                                        + rest->Ok_0);
                                }
                                seen = seen.push(child);
                            }
                            values.push(value);
                        },
                        RawValueExpr::MacroInvocation(_) => {
                            return Err(IonError::Decoding);
                        },
                    }
                },
                Some(Err(error)) => {
                    return Err(start.at_start(error));
                },
            }
        }
    }
}

impl<'top> LazyContainerPrivate<'top> for LazyRawBinarySequence_1_0<'top> {
    open spec fn spec_value(&self) -> LazyRawBinaryValue_1_0<'top> {
        self.value
    }

    fn from_value(value: LazyRawBinaryValue_1_0<'top>) -> (container: Self) {
        LazyRawBinarySequence_1_0 { value }
    }
}

impl<'top> LazyContainerPrivate<'top> for LazyRawBinaryList_1_0<'top> {
    open spec fn spec_value(&self) -> LazyRawBinaryValue_1_0<'top> {
        self.sequence.value
    }

    fn from_value(value: LazyRawBinaryValue_1_0<'top>) -> (container: Self) {
        LazyRawBinaryList_1_0 { sequence: LazyRawBinarySequence_1_0 { value } }
    }
}

impl<'top> LazyContainerPrivate<'top> for LazyRawBinarySExp_1_0<'top> {
    open spec fn spec_value(&self) -> LazyRawBinaryValue_1_0<'top> {
        self.sequence.value
    }

    fn from_value(value: LazyRawBinaryValue_1_0<'top>) -> (container: Self) {
        LazyRawBinarySExp_1_0 { sequence: LazyRawBinarySequence_1_0 { value } }
    }
}

} // verus!
