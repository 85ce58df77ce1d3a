//! Structs of the raw level.

use vstd::prelude::*;
use crate::lazy::binary::immutable_buffer::ImmutableBuffer;
use crate::lazy::binary::layout::{fields, next_field, FieldLayout};
use crate::lazy::binary::raw::annotations_iterator::RawBinaryAnnotationsIterator;
use crate::lazy::binary::raw::value::LazyRawBinaryValue_1_0;
use crate::lazy::decoder::{
    HasRange,
    HasSpan,
    LazyContainerPrivate,
    LazyRawFieldName,
    Never,
    RawFieldExpr,
    RawValueExpr,
};
use crate::raw_symbol_token::RawSymbolTokenView;
use crate::raw_symbol_token_ref::RawSymbolTokenRef;
use crate::result::{IonError, IonResult, ParseFault};
use crate::types::SymbolId;

verus! {

/// A field of an Ion 1.0 binary struct: a field ID and a value.
pub type LazyRawBinaryFieldExpr_1_0<'top> = RawFieldExpr<
    LazyRawBinaryFieldName_1_0<'top>,
    LazyRawBinaryValue_1_0<'top>,
    Never,
>;

/// A struct whose fields have not been matched yet.
#[derive(Debug, Clone, Copy)]
pub struct LazyRawBinaryStruct_1_0<'top> {
    pub value: LazyRawBinaryValue_1_0<'top>,
}

impl<'top> LazyRawBinaryStruct_1_0<'top> {
    /// The handle is well-formed and names a struct.
    pub open spec fn wf(&self) -> bool {
        &&& self.value.wf()
        &&& self.value.layout().ion_type is Struct
    }

    /// Returns an iterator over the annotations of the struct.
    pub fn annotations(&self) -> (iterator: RawBinaryAnnotationsIterator<'top>)
        requires
            self.value.wf(),
        ensures
            iterator@ == self.value.spec_annotations_bytes(),
            iterator.wf(),
    {
        self.value.annotations()
    }

    /// Returns an iterator over the fields, which starts at the first.
    pub fn iter(&self) -> (iterator: RawBinaryStructIterator_1_0<'top>)
        requires
            self.value.wf(),
        ensures
            iterator@ == self.value.spec_body(),
            iterator.wf(),
    {
        RawBinaryStructIterator_1_0::new(self.value.available_body())
    }

    /// Returns the struct as the value it was matched as.
    pub fn as_value(&self) -> (value: LazyRawBinaryValue_1_0<'top>)
        ensures
            value == self.value,
    {
        self.value
    }
}

/// Walks the fields of a struct in the order of the bytes.
#[derive(Debug, Clone, Copy)]
pub struct RawBinaryStructIterator_1_0<'top> {
    source: ImmutableBuffer<'top>,
}

impl<'top> View for RawBinaryStructIterator_1_0<'top> {
    type V = Seq<u8>;

    /// The bytes of the body that are left.
    closed spec fn view(&self) -> Seq<u8> {
        self.source@
    }
}

impl<'top> RawBinaryStructIterator_1_0<'top> {
    /// Every stream offset of what is left is a `usize`.
    pub closed spec fn wf(&self) -> bool {
        self.source.wf()
    }

    /// The stream offset of the first byte that is left.
    pub closed spec fn spec_offset(&self) -> usize {
        self.source.spec_offset()
    }

    /// An iterator over the fields that `input` holds.
    pub fn new(input: ImmutableBuffer<'top>) -> (iterator: RawBinaryStructIterator_1_0<'top>)
        requires
            input.wf(),
        ensures
            iterator@ == input@,
            iterator.spec_offset() == input.spec_offset(),
            iterator.wf(),
    {
        RawBinaryStructIterator_1_0 { source: input }
    }

    /// Yields the next field. `None` says that none is left. After an error
    /// the iterator yields nothing more.
    #[verifier::rlimit(50)]
    pub fn next(&mut self) -> (r: Option<IonResult<LazyRawBinaryFieldExpr_1_0<'top>>>)
        requires
            old(self).wf(),
        ensures
            final(self).wf(),
            match next_field(old(self)@) {
                Ok(None) => r is None && final(self)@.len() == 0,
                Ok(Some(field)) => {
                    &&& r is Some
                    &&& r->Some_0 is Ok
                    &&& r->Some_0->Ok_0.spec_value_expr() is ValueLiteral
                    &&& r->Some_0->Ok_0.spec_value_expr()->ValueLiteral_0.layout() == field.value
                    &&& r->Some_0->Ok_0.spec_value_expr()->ValueLiteral_0.wf()
                    &&& r->Some_0->Ok_0.spec_value_expr()->ValueLiteral_0.input@ == old(self)@.skip(
                        field.padding as int,
                    )
                    &&& r->Some_0->Ok_0.spec_value_expr()->ValueLiteral_0.encoded_value.field_id_length
                        == field.field_id_length
                    &&& r->Some_0->Ok_0.spec_name().spec_field_id() == field.field_id
                    &&& r->Some_0->Ok_0.spec_name().wf()
                    &&& r->Some_0->Ok_0.spec_name().spec_start() == old(self).spec_offset()
                        + field.padding
                    &&& r->Some_0->Ok_0.spec_name().spec_end() == old(self).spec_offset()
                        + field.padding + field.field_id_length
                    &&& 1 <= field.consumed() <= old(self)@.len()
                    &&& final(self)@ == old(self)@.skip(field.consumed() as int)
                    &&& final(self).spec_offset() == old(self).spec_offset() + field.consumed()
                },
                Err(fault) => {
                    &&& r is Some
                    &&& r->Some_0 is Err
                    &&& fault is Incomplete ==> r->Some_0->Err_0 == (IonError::Incomplete {
                        offset: old(self).spec_offset(),
                    })
                    &&& fault is Malformed ==> r->Some_0->Err_0 == IonError::Decoding
                    &&& final(self)@.len() == 0
                },
            },
    {
        match self.source.peek_field() {
            Ok(Some(lazy_value)) => {
                let field_id = match lazy_value.encoded_value.field_id {
                    Some(field_id) => field_id,
                    None => 0,
                };
                let matched = lazy_value.input.slice(0, lazy_value.encoded_value.field_id_length);
                let name = LazyRawBinaryFieldName_1_0::new(field_id, matched);
                let consumed = lazy_value.input.offset() - self.source.offset()
                    + lazy_value.encoded_value.total_length;
                let rest = self.source.consume(consumed);
                self.source = rest;
                Some(Ok(RawFieldExpr::new(name, RawValueExpr::ValueLiteral(lazy_value))))
            },
            Ok(None) => {
                self.source = self.source.consume(self.source.len());
                None
            },
            Err(error) => {
                self.source = self.source.consume(self.source.len());
                Some(Err(error))
            },
        }
    }

    /// Collects the fields that are left into a vector of field IDs and
    /// values.
    #[verifier::rlimit(50)]
    pub fn collect(&mut self) -> (r: IonResult<Vec<(SymbolId, LazyRawBinaryValue_1_0<'top>)>>)
        requires
            old(self).wf(),
        ensures
            final(self).wf(),
            match fields(old(self)@) {
                Ok(layouts) => r is Ok && r->Ok_0@.len() == layouts.len() && forall|i: int|
                    0 <= i < layouts.len() ==> r->Ok_0@[i].0 == layouts[i].field_id
                        && r->Ok_0@[i].1.layout() == layouts[i].value && r->Ok_0@[i].1.wf(),
                Err(fault) => r is Err && (fault is Incomplete ==> r->Err_0 == (IonError::Incomplete {
                    offset: old(self).spec_offset(),
                })) && (fault is Malformed ==> r->Err_0 == IonError::Decoding),
            },
    {
        let mut values: Vec<(SymbolId, LazyRawBinaryValue_1_0<'top>)> = Vec::new();
        let ghost mut seen: Seq<FieldLayout> = Seq::empty();
        let start = self.source;
        loop
            invariant
                self.wf(),
                start.spec_offset() == old(self).spec_offset(),
                seen.len() == values@.len(),
                forall|i: int|
                    0 <= i < seen.len() ==> values@[i].0 == seen[i].field_id
                        && values@[i].1.layout() == seen[i].value && values@[i].1.wf(),
                match fields(self@) {
                    Ok(rest) => fields(old(self)@) == Ok::<Seq<FieldLayout>, ParseFault>(
                        seen + rest,
                    ),
                    Err(fault) => fields(old(self)@) == Err::<Seq<FieldLayout>, ParseFault>(fault),
                },
            decreases self@.len(),
        {
            let ghost before = self@;
            match self.next() {
                None => {
                    assert(seen + Seq::<FieldLayout>::empty() =~= seen);
                    return Ok(values);
                },
                Some(Ok(field)) => {
                    let (name, expr) = field.into_pair();
                    match expr {
                        RawValueExpr::ValueLiteral(value) => {
                            proof {
                                let layout = next_field(before)->Ok_0->Some_0;
                                let rest = fields(before.skip(layout.consumed() as int));
                                if rest is Ok {
                                    assert(seen + (seq![layout] + rest->Ok_0) =~= seen.push(layout)
                                        + rest->Ok_0);
                                }
                                seen = seen.push(layout);
                            }
                            values.push((name.field_id(), value));
                        },
                        RawValueExpr::MacroInvocation(_) => {
                            return Err(IonError::Decoding);
                        },
                    }
                },
                Some(Err(error)) => {
                    return Err(start.at_start(error));
                },
            }
        }
    }
}

/// The name of a field of a binary struct: a symbol ID, and the bytes that
/// spell it.
#[derive(Debug, Clone, Copy)]
pub struct LazyRawBinaryFieldName_1_0<'top> {
    // The field ID is read to learn its length, and kept so that it need not
    // be read again.
    field_id: SymbolId,
    matched: ImmutableBuffer<'top>,
}

impl<'top> LazyRawBinaryFieldName_1_0<'top> {
    /// The symbol ID of the field.
    pub closed spec fn spec_field_id(&self) -> SymbolId {
        self.field_id
    }

    /// The bytes that spell the field ID.
    pub closed spec fn spec_matched(&self) -> ImmutableBuffer<'top> {
        self.matched
    }

    /// Every stream offset of the name is a `usize`.
    pub open spec fn wf(&self) -> bool {
        self.spec_matched().wf()
    }

    pub fn new(field_id: SymbolId, matched: ImmutableBuffer<'top>) -> (name: Self)
        ensures
            name.spec_field_id() == field_id,
            name.spec_matched() == matched,
    {
        Self { field_id, matched }
    }

    /// Returns the symbol ID of the field.
    #[verifier::when_used_as_spec(spec_field_id)]
    pub fn field_id(&self) -> (field_id: SymbolId)
        ensures
            field_id == self.spec_field_id(),
    {
        self.field_id
    }
}

impl<'top> HasRange for LazyRawBinaryFieldName_1_0<'top> {
    open spec fn spec_start(&self) -> int {
        self.spec_matched().spec_offset() as int
    }

    open spec fn spec_end(&self) -> int {
        self.spec_matched().spec_end()
    }

    open spec fn has_range(&self) -> bool {
        self.wf()
    }

    fn range(&self) -> (range: core::ops::Range<usize>) {
        self.matched.range()
    }
}

impl<'top> HasSpan<'top> for LazyRawBinaryFieldName_1_0<'top> {
    open spec fn spec_span(&self) -> Seq<u8> {
        self.spec_matched()@
    }

    fn span(&self) -> (bytes: &'top [u8]) {
        self.matched.bytes()
    }
}

impl<'top> LazyRawFieldName<'top> for LazyRawBinaryFieldName_1_0<'top> {
    open spec fn spec_token(&self) -> RawSymbolTokenView {
        RawSymbolTokenView::SymbolId(self.spec_field_id() as nat)
    }

    fn read(&self) -> (r: IonResult<RawSymbolTokenRef<'top>>) {
        Ok(RawSymbolTokenRef::SymbolId(self.field_id))
    }
}

impl<'top> LazyContainerPrivate<'top> for LazyRawBinaryStruct_1_0<'top> {
    open spec fn spec_value(&self) -> LazyRawBinaryValue_1_0<'top> {
        self.value
    }

    fn from_value(value: LazyRawBinaryValue_1_0<'top>) -> (container: Self) {
        LazyRawBinaryStruct_1_0 { value }
    }
}

} // verus!
