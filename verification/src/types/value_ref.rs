//! What reading a value at the user level yields.

use vstd::prelude::*;
use crate::binary::decimal::DecimalView;
use crate::binary::timestamp::TimestampView;
use crate::lazy::binary::raw::sequence::{LazyRawBinaryList_1_0, LazyRawBinarySExp_1_0};
use crate::lazy::binary::raw::structure::LazyRawBinaryStruct_1_0;
use crate::lazy::raw_value_ref::{RawValueRef, RawValueView};
use crate::raw_reader::RawBinaryReader;
use crate::raw_symbol_token_ref::RawSymbolTokenRef;
use crate::lazy::binary::raw::value::decode_body;
use crate::raw_symbol_token::RawSymbolTokenView;
use crate::reader::UserReader;
use crate::result::{IonError, IonResult};
use crate::symbol::Symbol;
use crate::types::decimal::Decimal;
use crate::types::integer::{FloatBits, Int};
use crate::types::timestamp::Timestamp;
use crate::types::IonType;
use crate::value_reader::{SequenceRef, StructRef};

verus! {

/// A value of the user level as a mathematical value. A symbol is its text,
/// or unknown text. Containers are named, not unfolded.
pub enum ValueView {
    Null(IonType),
    Bool(bool),
    Int(int),
    Float(FloatBits),
    Decimal(DecimalView),
    Timestamp(TimestampView),
    String(Seq<char>),
    Symbol(Option<Seq<char>>),
    Blob(Seq<u8>),
    Clob(Seq<u8>),
    SExp,
    List,
    Struct,
}

/// The value of the user level that a raw value stands for under the symbol
/// table `table`; `None` for a symbol ID that the table does not hold.
pub open spec fn resolved(raw: RawValueView, table: Seq<Option<Seq<char>>>) -> Option<ValueView> {
    match raw {
        RawValueView::Null(t) => Some(ValueView::Null(t)),
        RawValueView::Bool(b) => Some(ValueView::Bool(b)),
        RawValueView::Int(i) => Some(ValueView::Int(i)),
        RawValueView::Float(f) => Some(ValueView::Float(f)),
        RawValueView::Decimal(d) => Some(ValueView::Decimal(d)),
        RawValueView::Timestamp(t) => Some(ValueView::Timestamp(t)),
        RawValueView::String(s) => Some(ValueView::String(s)),
        RawValueView::Symbol(RawSymbolTokenView::SymbolId(sid)) => if sid < table.len() {
            Some(ValueView::Symbol(table[sid as int]))
        } else {
            None
        },
        RawValueView::Symbol(RawSymbolTokenView::Text(text)) => Some(ValueView::Symbol(Some(text))),
        RawValueView::Blob(b) => Some(ValueView::Blob(b)),
        RawValueView::Clob(c) => Some(ValueView::Clob(c)),
        RawValueView::SExp => Some(ValueView::SExp),
        RawValueView::List => Some(ValueView::List),
        RawValueView::Struct => Some(ValueView::Struct),
    }
}

/// A value read at the user level: scalars are decoded and symbols resolved.
/// A container comes as a handle that borrows the reader; to read its
/// children, ask the handle for a reader of them.
#[derive(Debug)]
pub enum ValueRef<'r, 'a> {
    Null(IonType),
    Bool(bool),
    Int(Int),
    Float(FloatBits),
    Decimal(Decimal),
    Timestamp(Timestamp),
    String(&'a str),
    Symbol(Symbol),
    Blob(&'a [u8]),
    Clob(&'a [u8]),
    SExp(SequenceRef<'r, 'a>),
    List(SequenceRef<'r, 'a>),
    Struct(StructRef<'r, 'a>),
}

impl<'r, 'a> View for ValueRef<'r, 'a> {
    type V = ValueView;

    open spec fn view(&self) -> ValueView {
        match self {
            ValueRef::Null(ion_type) => ValueView::Null(*ion_type),
            ValueRef::Bool(b) => ValueView::Bool(*b),
            ValueRef::Int(i) => ValueView::Int(i.value()),
            ValueRef::Float(f) => ValueView::Float(*f),
            ValueRef::Decimal(d) => ValueView::Decimal(d.view_parts()),
            ValueRef::Timestamp(t) => ValueView::Timestamp(t.view_parts()),
            ValueRef::String(s) => ValueView::String(s@),
            ValueRef::Symbol(s) => ValueView::Symbol(s@),
            ValueRef::Blob(b) => ValueView::Blob(b@),
            ValueRef::Clob(c) => ValueView::Clob(c@),
            ValueRef::SExp(_) => ValueView::SExp,
            ValueRef::List(_) => ValueView::List,
            ValueRef::Struct(_) => ValueView::Struct,
        }
    }
}

impl<'r, 'a> ValueRef<'r, 'a> {
    /// Returns the type of the null; to ask any other value for it is an
    /// illegal operation.
    pub fn expect_null(self) -> (r: IonResult<IonType>)
        ensures
            self matches ValueRef::List(handle) ==> *final(handle.reader) == *handle.reader,
            self matches ValueRef::SExp(handle) ==> *final(handle.reader) == *handle.reader,
            self matches ValueRef::Struct(handle) ==> *final(handle.reader) == *handle.reader,
            match self {
                ValueRef::Null(ion_type) => r == Ok::<IonType, IonError>(ion_type),
                _ => r == Err::<IonType, IonError>(IonError::IllegalOperation),
            },
    {
        if let ValueRef::Null(ion_type) = self {
            Ok(ion_type)
        } else {
            Err(IonError::IllegalOperation)
        }
    }

    /// Returns the boolean; to ask any other value for it is an
    /// illegal operation.
    pub fn expect_bool(self) -> (r: IonResult<bool>)
        ensures
            self matches ValueRef::List(handle) ==> *final(handle.reader) == *handle.reader,
            self matches ValueRef::SExp(handle) ==> *final(handle.reader) == *handle.reader,
            self matches ValueRef::Struct(handle) ==> *final(handle.reader) == *handle.reader,
            match self {
                ValueRef::Bool(b) => r == Ok::<bool, IonError>(b),
                _ => r == Err::<bool, IonError>(IonError::IllegalOperation),
            },
    {
        if let ValueRef::Bool(b) = self {
            Ok(b)
        } else {
            Err(IonError::IllegalOperation)
        }
    }

    /// Returns the integer; to ask any other value for it is an
    /// illegal operation.
    pub fn expect_int(self) -> (r: IonResult<Int>)
        ensures
            self matches ValueRef::List(handle) ==> *final(handle.reader) == *handle.reader,
            self matches ValueRef::SExp(handle) ==> *final(handle.reader) == *handle.reader,
            self matches ValueRef::Struct(handle) ==> *final(handle.reader) == *handle.reader,
            match self {
                ValueRef::Int(i) => r == Ok::<Int, IonError>(i),
                _ => r == Err::<Int, IonError>(IonError::IllegalOperation),
            },
    {
        if let ValueRef::Int(i) = self {
            Ok(i)
        } else {
            Err(IonError::IllegalOperation)
        }
    }

    /// Returns the bits of the float; to ask any other value for it is an
    /// illegal operation.
    pub fn expect_float(self) -> (r: IonResult<FloatBits>)
        ensures
            self matches ValueRef::List(handle) ==> *final(handle.reader) == *handle.reader,
            self matches ValueRef::SExp(handle) ==> *final(handle.reader) == *handle.reader,
            self matches ValueRef::Struct(handle) ==> *final(handle.reader) == *handle.reader,
            match self {
                ValueRef::Float(f) => r == Ok::<FloatBits, IonError>(f),
                _ => r == Err::<FloatBits, IonError>(IonError::IllegalOperation),
            },
    {
        if let ValueRef::Float(f) = self {
            Ok(f)
        } else {
            Err(IonError::IllegalOperation)
        }
    }

    /// Returns the decimal; to ask any other value for it is an
    /// illegal operation.
    pub fn expect_decimal(self) -> (r: IonResult<Decimal>)
        ensures
            self matches ValueRef::List(handle) ==> *final(handle.reader) == *handle.reader,
            self matches ValueRef::SExp(handle) ==> *final(handle.reader) == *handle.reader,
            self matches ValueRef::Struct(handle) ==> *final(handle.reader) == *handle.reader,
            match self {
                ValueRef::Decimal(d) => r == Ok::<Decimal, IonError>(d),
                _ => r == Err::<Decimal, IonError>(IonError::IllegalOperation),
            },
    {
        if let ValueRef::Decimal(d) = self {
            Ok(d)
        } else {
            Err(IonError::IllegalOperation)
        }
    }

    /// Returns the timestamp; to ask any other value for it is an
    /// illegal operation.
    pub fn expect_timestamp(self) -> (r: IonResult<Timestamp>)
        ensures
            self matches ValueRef::List(handle) ==> *final(handle.reader) == *handle.reader,
            self matches ValueRef::SExp(handle) ==> *final(handle.reader) == *handle.reader,
            self matches ValueRef::Struct(handle) ==> *final(handle.reader) == *handle.reader,
            match self {
                ValueRef::Timestamp(t) => r == Ok::<Timestamp, IonError>(t),
                _ => r == Err::<Timestamp, IonError>(IonError::IllegalOperation),
            },
    {
        if let ValueRef::Timestamp(t) = self {
            Ok(t)
        } else {
            Err(IonError::IllegalOperation)
        }
    }

    /// Returns the text of the string; to ask any other value for it is an
    /// illegal operation.
    pub fn expect_string(self) -> (r: IonResult<&'a str>)
        ensures
            self matches ValueRef::List(handle) ==> *final(handle.reader) == *handle.reader,
            self matches ValueRef::SExp(handle) ==> *final(handle.reader) == *handle.reader,
            self matches ValueRef::Struct(handle) ==> *final(handle.reader) == *handle.reader,
            match self {
                ValueRef::String(s) => r == Ok::<&'a str, IonError>(s),
                _ => r == Err::<&'a str, IonError>(IonError::IllegalOperation),
            },
    {
        if let ValueRef::String(s) = self {
            Ok(s)
        } else {
            Err(IonError::IllegalOperation)
        }
    }

    /// Returns the symbol; to ask any other value for it is an
    /// illegal operation.
    pub fn expect_symbol(self) -> (r: IonResult<Symbol>)
        ensures
            self matches ValueRef::List(handle) ==> *final(handle.reader) == *handle.reader,
            self matches ValueRef::SExp(handle) ==> *final(handle.reader) == *handle.reader,
            self matches ValueRef::Struct(handle) ==> *final(handle.reader) == *handle.reader,
            match self {
                ValueRef::Symbol(s) => r == Ok::<Symbol, IonError>(s),
                _ => r == Err::<Symbol, IonError>(IonError::IllegalOperation),
            },
    {
        if let ValueRef::Symbol(s) = self {
            Ok(s)
        } else {
            Err(IonError::IllegalOperation)
        }
    }

    /// Returns the bytes of the blob; to ask any other value for it is an
    /// illegal operation.
    pub fn expect_blob(self) -> (r: IonResult<&'a [u8]>)
        ensures
            self matches ValueRef::List(handle) ==> *final(handle.reader) == *handle.reader,
            self matches ValueRef::SExp(handle) ==> *final(handle.reader) == *handle.reader,
            self matches ValueRef::Struct(handle) ==> *final(handle.reader) == *handle.reader,
            match self {
                ValueRef::Blob(b) => r == Ok::<&'a [u8], IonError>(b),
                _ => r == Err::<&'a [u8], IonError>(IonError::IllegalOperation),
            },
    {
        if let ValueRef::Blob(b) = self {
            Ok(b)
        } else {
            Err(IonError::IllegalOperation)
        }
    }

    /// Returns the bytes of the clob; to ask any other value for it is an
    /// illegal operation.
    pub fn expect_clob(self) -> (r: IonResult<&'a [u8]>)
        ensures
            self matches ValueRef::List(handle) ==> *final(handle.reader) == *handle.reader,
            self matches ValueRef::SExp(handle) ==> *final(handle.reader) == *handle.reader,
            self matches ValueRef::Struct(handle) ==> *final(handle.reader) == *handle.reader,
            match self {
                ValueRef::Clob(c) => r == Ok::<&'a [u8], IonError>(c),
                _ => r == Err::<&'a [u8], IonError>(IonError::IllegalOperation),
            },
    {
        if let ValueRef::Clob(c) = self {
            Ok(c)
        } else {
            Err(IonError::IllegalOperation)
        }
    }

    /// Returns the handle on the list; to ask any other value for it is an
    /// illegal operation.
    pub fn expect_list(self) -> (r: IonResult<SequenceRef<'r, 'a>>)
        ensures
            self matches ValueRef::SExp(handle) ==> *final(handle.reader) == *handle.reader,
            self matches ValueRef::Struct(handle) ==> *final(handle.reader) == *handle.reader,
            match self {
                ValueRef::List(handle) => r is Ok && *r->Ok_0.reader == *handle.reader
                    && *final(r->Ok_0.reader) == *final(handle.reader),
                _ => r is Err && r->Err_0 == IonError::IllegalOperation,
            },
    {
        if let ValueRef::List(handle) = self {
            Ok(handle)
        } else {
            Err(IonError::IllegalOperation)
        }
    }

    /// Returns the handle on the s-expression; to ask any other value for it is an
    /// illegal operation.
    pub fn expect_sexp(self) -> (r: IonResult<SequenceRef<'r, 'a>>)
        ensures
            self matches ValueRef::List(handle) ==> *final(handle.reader) == *handle.reader,
            self matches ValueRef::Struct(handle) ==> *final(handle.reader) == *handle.reader,
            match self {
                ValueRef::SExp(handle) => r is Ok && *r->Ok_0.reader == *handle.reader
                    && *final(r->Ok_0.reader) == *final(handle.reader),
                _ => r is Err && r->Err_0 == IonError::IllegalOperation,
            },
    {
        if let ValueRef::SExp(handle) = self {
            Ok(handle)
        } else {
            Err(IonError::IllegalOperation)
        }
    }

    /// Returns the handle on the struct; to ask any other value for it is an
    /// illegal operation.
    pub fn expect_struct(self) -> (r: IonResult<StructRef<'r, 'a>>)
        ensures
            self matches ValueRef::List(handle) ==> *final(handle.reader) == *handle.reader,
            self matches ValueRef::SExp(handle) ==> *final(handle.reader) == *handle.reader,
            match self {
                ValueRef::Struct(handle) => r is Ok && *r->Ok_0.reader == *handle.reader
                    && *final(r->Ok_0.reader) == *final(handle.reader),
                _ => r is Err && r->Err_0 == IonError::IllegalOperation,
            },
    {
        if let ValueRef::Struct(handle) = self {
            Ok(handle)
        } else {
            Err(IonError::IllegalOperation)
        }
    }
}

/// What a read yields as a mathematical value: the view of the value, or the
/// error.
pub open spec fn outcome_of(r: IonResult<ValueRef<'_, '_>>) -> Result<ValueView, IonError> {
    match r {
        Ok(value) => Ok(value@),
        Err(e) => Err(e),
    }
}

impl<'r, 'a> ValueRef<'r, 'a> {
    /// True when the number that the value holds, if it holds one, is
    /// well-formed.
    pub open spec fn wf(&self) -> bool {
        match self {
            ValueRef::Int(i) => i.wf(),
            ValueRef::Decimal(d) => d.wf(),
            ValueRef::Timestamp(t) => t.wf(),
            _ => true,
        }
    }
}

/// What a read at the raw level yields as a mathematical value: the view of
/// the value, or the error.
pub open spec fn raw_outcome_of(r: IonResult<RawValueRef<'_>>) -> Result<RawValueView, IonError> {
    match r {
        Ok(value) => Ok(value@),
        Err(e) => Err(e),
    }
}

/// Reads of the value that a raw reader is positioned over, as a value of
/// the type that the caller expects. Symbols are not resolved.
///
/// Each read decodes the value. To ask a value for a type that it does not
/// have is an illegal operation; the errors of decoding come out as they are.
pub trait ReadRawValueRef {
    /// True when the reader can be read from.
    spec fn is_readable(&self) -> bool;

    /// What decoding the value that the reader is positioned over yields.
    spec fn outcome(&self) -> Result<RawValueView, IonError>;

    /// True unless `value` is a handle on a container other than the value
    /// that the reader is positioned over.
    spec fn hands_out(&self, value: RawValueRef<'_>) -> bool;

    /// Decodes the value that the reader is positioned over.
    fn read_value(&self) -> (r: IonResult<RawValueRef<'_>>)
        requires
            self.is_readable(),
        ensures
            raw_outcome_of(r) == self.outcome(),
            r is Ok ==> r->Ok_0.wf() && self.hands_out(r->Ok_0),
    ;

    /// Reads a null and returns its type.
    fn read_null(&self) -> (r: IonResult<IonType>)
        requires
            self.is_readable(),
        ensures
            r == match self.outcome() {
                Ok(RawValueView::Null(ion_type)) => Ok::<IonType, IonError>(ion_type),
                Ok(_) => Err(IonError::IllegalOperation),
                Err(e) => Err(e),
            },
    ;

    /// Reads a boolean.
    fn read_bool(&self) -> (r: IonResult<bool>)
        requires
            self.is_readable(),
        ensures
            r == match self.outcome() {
                Ok(RawValueView::Bool(b)) => Ok::<bool, IonError>(b),
                Ok(_) => Err(IonError::IllegalOperation),
                Err(e) => Err(e),
            },
    ;

    /// Reads an integer.
    fn read_int(&self) -> (r: IonResult<Int>)
        requires
            self.is_readable(),
        ensures
            match self.outcome() {
                Ok(RawValueView::Int(i)) => r is Ok && r->Ok_0.wf() && r->Ok_0.value() == i,
                Ok(_) => r == Err::<Int, IonError>(IonError::IllegalOperation),
                Err(e) => r == Err::<Int, IonError>(e),
            },
    ;

    /// Reads a float and returns its bits.
    fn read_float(&self) -> (r: IonResult<FloatBits>)
        requires
            self.is_readable(),
        ensures
            r == match self.outcome() {
                Ok(RawValueView::Float(f)) => Ok::<FloatBits, IonError>(f),
                Ok(_) => Err(IonError::IllegalOperation),
                Err(e) => Err(e),
            },
    ;

    /// Reads a decimal.
    fn read_decimal(&self) -> (r: IonResult<Decimal>)
        requires
            self.is_readable(),
        ensures
            match self.outcome() {
                Ok(RawValueView::Decimal(d)) => r is Ok && r->Ok_0.wf() && r->Ok_0.view_parts() == d,
                Ok(_) => r == Err::<Decimal, IonError>(IonError::IllegalOperation),
                Err(e) => r == Err::<Decimal, IonError>(e),
            },
    ;

    /// Reads a timestamp.
    fn read_timestamp(&self) -> (r: IonResult<Timestamp>)
        requires
            self.is_readable(),
        ensures
            match self.outcome() {
                Ok(RawValueView::Timestamp(t)) => r is Ok && r->Ok_0.wf() && r->Ok_0.view_parts() == t,
                Ok(_) => r == Err::<Timestamp, IonError>(IonError::IllegalOperation),
                Err(e) => r == Err::<Timestamp, IonError>(e),
            },
    ;

    /// Reads a string.
    fn read_string(&self) -> (r: IonResult<&str>)
        requires
            self.is_readable(),
        ensures
            match self.outcome() {
                Ok(RawValueView::String(s)) => r is Ok && r->Ok_0@ == s,
                Ok(_) => r == Err::<&str, IonError>(IonError::IllegalOperation),
                Err(e) => r == Err::<&str, IonError>(e),
            },
    ;

    /// Reads a symbol, which is not resolved.
    fn read_symbol(&self) -> (r: IonResult<RawSymbolTokenRef<'_>>)
        requires
            self.is_readable(),
        ensures
            match self.outcome() {
                Ok(RawValueView::Symbol(s)) => r is Ok && r->Ok_0@ == s,
                Ok(_) => r == Err::<RawSymbolTokenRef<'_>, IonError>(IonError::IllegalOperation),
                Err(e) => r == Err::<RawSymbolTokenRef<'_>, IonError>(e),
            },
    ;

    /// Reads a clob.
    fn read_clob(&self) -> (r: IonResult<&[u8]>)
        requires
            self.is_readable(),
        ensures
            match self.outcome() {
                Ok(RawValueView::Clob(c)) => r is Ok && r->Ok_0@ == c,
                Ok(_) => r == Err::<&[u8], IonError>(IonError::IllegalOperation),
                Err(e) => r == Err::<&[u8], IonError>(e),
            },
    ;

    /// Reads a blob.
    fn read_blob(&self) -> (r: IonResult<&[u8]>)
        requires
            self.is_readable(),
        ensures
            match self.outcome() {
                Ok(RawValueView::Blob(b)) => r is Ok && r->Ok_0@ == b,
                Ok(_) => r == Err::<&[u8], IonError>(IonError::IllegalOperation),
                Err(e) => r == Err::<&[u8], IonError>(e),
            },
    ;

    /// Reads a list and returns a handle on it.
    fn read_list(&self) -> (r: IonResult<LazyRawBinaryList_1_0<'_>>)
        requires
            self.is_readable(),
        ensures
            match self.outcome() {
                Ok(RawValueView::List) => r is Ok && self.hands_out(RawValueRef::List(r->Ok_0)),
                Ok(_) => r == Err::<LazyRawBinaryList_1_0<'_>, IonError>(IonError::IllegalOperation),
                Err(e) => r == Err::<LazyRawBinaryList_1_0<'_>, IonError>(e),
            },
    ;

    /// Reads an s-expression and returns a handle on it.
    fn read_sexp(&self) -> (r: IonResult<LazyRawBinarySExp_1_0<'_>>)
        requires
            self.is_readable(),
        ensures
            match self.outcome() {
                Ok(RawValueView::SExp) => r is Ok && self.hands_out(RawValueRef::SExp(r->Ok_0)),
                Ok(_) => r == Err::<LazyRawBinarySExp_1_0<'_>, IonError>(IonError::IllegalOperation),
                Err(e) => r == Err::<LazyRawBinarySExp_1_0<'_>, IonError>(e),
            },
    ;

    /// Reads a struct and returns a handle on it.
    fn read_struct(&self) -> (r: IonResult<LazyRawBinaryStruct_1_0<'_>>)
        requires
            self.is_readable(),
        ensures
            match self.outcome() {
                Ok(RawValueView::Struct) => r is Ok && self.hands_out(RawValueRef::Struct(r->Ok_0)),
                Ok(_) => r == Err::<LazyRawBinaryStruct_1_0<'_>, IonError>(IonError::IllegalOperation),
                Err(e) => r == Err::<LazyRawBinaryStruct_1_0<'_>, IonError>(e),
            },
    ;
}

impl<'a> ReadRawValueRef for RawBinaryReader<'a> {
    open spec fn is_readable(&self) -> bool {
        self.wf()
    }

    open spec fn outcome(&self) -> Result<RawValueView, IonError> {
        match self.spec_current() {
            Some(value) => match decode_body(value.encoded_value.opcode, value.spec_body()) {
                Some(view) => Ok(view),
                None => Err(IonError::Decoding),
            },
            None => Err(IonError::IllegalOperation),
        }
    }

    open spec fn hands_out(&self, value: RawValueRef<'_>) -> bool {
        match value {
            RawValueRef::List(l) => Some(l.sequence.value) == self.spec_current(),
            RawValueRef::SExp(s) => Some(s.sequence.value) == self.spec_current(),
            RawValueRef::Struct(s) => Some(s.value) == self.spec_current(),
            _ => true,
        }
    }

    fn read_value(&self) -> (r: IonResult<RawValueRef<'_>>) {
        let r = RawBinaryReader::read_value(self);
        assert(r is Ok ==> self.hands_out(r->Ok_0));
        r
    }

    fn read_null(&self) -> (r: IonResult<IonType>) {
        match ReadRawValueRef::read_value(self) {
            Ok(value) => value.expect_null(),
            Err(e) => Err(e),
        }
    }

    fn read_bool(&self) -> (r: IonResult<bool>) {
        match ReadRawValueRef::read_value(self) {
            Ok(value) => value.expect_bool(),
            Err(e) => Err(e),
        }
    }

    fn read_int(&self) -> (r: IonResult<Int>) {
        match ReadRawValueRef::read_value(self) {
            Ok(value) => value.expect_int(),
            Err(e) => Err(e),
        }
    }

    fn read_float(&self) -> (r: IonResult<FloatBits>) {
        match ReadRawValueRef::read_value(self) {
            Ok(value) => value.expect_float(),
            Err(e) => Err(e),
        }
    }

    fn read_decimal(&self) -> (r: IonResult<Decimal>) {
        match ReadRawValueRef::read_value(self) {
            Ok(value) => value.expect_decimal(),
            Err(e) => Err(e),
        }
    }

    fn read_timestamp(&self) -> (r: IonResult<Timestamp>) {
        match ReadRawValueRef::read_value(self) {
            Ok(value) => value.expect_timestamp(),
            Err(e) => Err(e),
        }
    }

    fn read_string(&self) -> (r: IonResult<&str>) {
        match ReadRawValueRef::read_value(self) {
            Ok(value) => value.expect_string(),
            Err(e) => Err(e),
        }
    }

    fn read_symbol(&self) -> (r: IonResult<RawSymbolTokenRef<'_>>) {
        match ReadRawValueRef::read_value(self) {
            Ok(value) => value.expect_symbol(),
            Err(e) => Err(e),
        }
    }

    fn read_clob(&self) -> (r: IonResult<&[u8]>) {
        match ReadRawValueRef::read_value(self) {
            Ok(value) => value.expect_clob(),
            Err(e) => Err(e),
        }
    }

    fn read_blob(&self) -> (r: IonResult<&[u8]>) {
        match ReadRawValueRef::read_value(self) {
            Ok(value) => value.expect_blob(),
            Err(e) => Err(e),
        }
    }

    fn read_list(&self) -> (r: IonResult<LazyRawBinaryList_1_0<'_>>) {
        match ReadRawValueRef::read_value(self) {
            Ok(value) => value.expect_list(),
            Err(e) => Err(e),
        }
    }

    fn read_sexp(&self) -> (r: IonResult<LazyRawBinarySExp_1_0<'_>>) {
        match ReadRawValueRef::read_value(self) {
            Ok(value) => value.expect_sexp(),
            Err(e) => Err(e),
        }
    }

    fn read_struct(&self) -> (r: IonResult<LazyRawBinaryStruct_1_0<'_>>) {
        match ReadRawValueRef::read_value(self) {
            Ok(value) => value.expect_struct(),
            Err(e) => Err(e),
        }
    }
}

/// Reads of the value that a reader of the user level is positioned over,
/// as a value of the type that the caller expects. Symbols are resolved, and
/// a container comes as a handle that borrows the reader.
///
/// Each read decodes the value and leaves the reader as it was. To ask a
/// value for a type that it does not have is an illegal operation; the errors
/// of decoding come out as they are.
pub trait ReadValueRef<'a> {
    /// True when the reader can be read from.
    spec fn is_readable(&self) -> bool;

    /// What decoding the value that the reader is positioned over yields.
    spec fn outcome(&self) -> Result<ValueView, IonError>;

    /// The reader that the value is read from.
    spec fn spec_reader(&self) -> UserReader<'a>;

    /// Decodes the value that the reader is positioned over.
    fn read_value(&mut self) -> (r: IonResult<ValueRef<'_, 'a>>)
        requires
            old(self).is_readable(),
        ensures
            outcome_of(r) == old(self).outcome(),
            r is Ok ==> r->Ok_0.wf(),
            match r {
                Ok(ValueRef::List(handle)) => *handle.reader == old(self).spec_reader()
                    && *final(handle.reader) == final(self).spec_reader(),
                Ok(ValueRef::SExp(handle)) => *handle.reader == old(self).spec_reader()
                    && *final(handle.reader) == final(self).spec_reader(),
                Ok(ValueRef::Struct(handle)) => *handle.reader == old(self).spec_reader()
                    && *final(handle.reader) == final(self).spec_reader(),
                _ => final(self).spec_reader() == old(self).spec_reader(),
            },
    ;

    /// Reads a null and returns its type.
    fn read_null(&mut self) -> (r: IonResult<IonType>)
        requires
            old(self).is_readable(),
        ensures
            r == match old(self).outcome() {
                Ok(ValueView::Null(ion_type)) => Ok::<IonType, IonError>(ion_type),
                Ok(_) => Err(IonError::IllegalOperation),
                Err(e) => Err(e),
            },
            final(self).spec_reader() == old(self).spec_reader(),
    ;

    /// Reads a boolean.
    fn read_bool(&mut self) -> (r: IonResult<bool>)
        requires
            old(self).is_readable(),
        ensures
            r == match old(self).outcome() {
                Ok(ValueView::Bool(b)) => Ok::<bool, IonError>(b),
                Ok(_) => Err(IonError::IllegalOperation),
                Err(e) => Err(e),
            },
            final(self).spec_reader() == old(self).spec_reader(),
    ;

    /// Reads an integer.
    fn read_int(&mut self) -> (r: IonResult<Int>)
        requires
            old(self).is_readable(),
        ensures
            match old(self).outcome() {
                Ok(ValueView::Int(i)) => r is Ok && r->Ok_0.wf() && r->Ok_0.value() == i,
                Ok(_) => r == Err::<Int, IonError>(IonError::IllegalOperation),
                Err(e) => r == Err::<Int, IonError>(e),
            },
            final(self).spec_reader() == old(self).spec_reader(),
    ;

    /// Reads a float and returns its bits.
    fn read_float(&mut self) -> (r: IonResult<FloatBits>)
        requires
            old(self).is_readable(),
        ensures
            r == match old(self).outcome() {
                Ok(ValueView::Float(f)) => Ok::<FloatBits, IonError>(f),
                Ok(_) => Err(IonError::IllegalOperation),
                Err(e) => Err(e),
            },
            final(self).spec_reader() == old(self).spec_reader(),
    ;

    /// Reads a decimal.
    fn read_decimal(&mut self) -> (r: IonResult<Decimal>)
        requires
            old(self).is_readable(),
        ensures
            match old(self).outcome() {
                Ok(ValueView::Decimal(d)) => r is Ok && r->Ok_0.wf() && r->Ok_0.view_parts() == d,
                Ok(_) => r == Err::<Decimal, IonError>(IonError::IllegalOperation),
                Err(e) => r == Err::<Decimal, IonError>(e),
            },
            final(self).spec_reader() == old(self).spec_reader(),
    ;

    /// Reads a timestamp.
    fn read_timestamp(&mut self) -> (r: IonResult<Timestamp>)
        requires
            old(self).is_readable(),
        ensures
            match old(self).outcome() {
                Ok(ValueView::Timestamp(t)) => r is Ok && r->Ok_0.wf() && r->Ok_0.view_parts() == t,
                Ok(_) => r == Err::<Timestamp, IonError>(IonError::IllegalOperation),
                Err(e) => r == Err::<Timestamp, IonError>(e),
            },
            final(self).spec_reader() == old(self).spec_reader(),
    ;

    /// Reads a string.
    fn read_string(&mut self) -> (r: IonResult<&'a str>)
        requires
            old(self).is_readable(),
        ensures
            match old(self).outcome() {
                Ok(ValueView::String(s)) => r is Ok && r->Ok_0@ == s,
                Ok(_) => r == Err::<&'a str, IonError>(IonError::IllegalOperation),
                Err(e) => r == Err::<&'a str, IonError>(e),
            },
            final(self).spec_reader() == old(self).spec_reader(),
    ;

    /// Reads a symbol and returns it with its text.
    fn read_symbol(&mut self) -> (r: IonResult<Symbol>)
        requires
            old(self).is_readable(),
        ensures
            match old(self).outcome() {
                Ok(ValueView::Symbol(s)) => r is Ok && r->Ok_0@ == s,
                Ok(_) => r == Err::<Symbol, IonError>(IonError::IllegalOperation),
                Err(e) => r == Err::<Symbol, IonError>(e),
            },
            final(self).spec_reader() == old(self).spec_reader(),
    ;

    /// Reads a clob.
    fn read_clob(&mut self) -> (r: IonResult<&'a [u8]>)
        requires
            old(self).is_readable(),
        ensures
            match old(self).outcome() {
                Ok(ValueView::Clob(c)) => r is Ok && r->Ok_0@ == c,
                Ok(_) => r == Err::<&'a [u8], IonError>(IonError::IllegalOperation),
                Err(e) => r == Err::<&'a [u8], IonError>(e),
            },
            final(self).spec_reader() == old(self).spec_reader(),
    ;

    /// Reads a blob.
    fn read_blob(&mut self) -> (r: IonResult<&'a [u8]>)
        requires
            old(self).is_readable(),
        ensures
            match old(self).outcome() {
                Ok(ValueView::Blob(b)) => r is Ok && r->Ok_0@ == b,
                Ok(_) => r == Err::<&'a [u8], IonError>(IonError::IllegalOperation),
                Err(e) => r == Err::<&'a [u8], IonError>(e),
            },
            final(self).spec_reader() == old(self).spec_reader(),
    ;

    /// Reads a list and returns a handle on it, which borrows the reader.
    fn read_list(&mut self) -> (r: IonResult<SequenceRef<'_, 'a>>)
        requires
            old(self).is_readable(),
        ensures
            match old(self).outcome() {
                Ok(ValueView::List) => r is Ok && *r->Ok_0.reader == old(self).spec_reader()
                    && *final(r->Ok_0.reader) == final(self).spec_reader(),
                Ok(_) => r is Err && r->Err_0 == IonError::IllegalOperation && final(self).spec_reader() == old(self).spec_reader(),
                Err(e) => r is Err && r->Err_0 == e && final(self).spec_reader() == old(self).spec_reader(),
            },
    ;

    /// Reads an s-expression and returns a handle on it, which borrows the reader.
    fn read_sexp(&mut self) -> (r: IonResult<SequenceRef<'_, 'a>>)
        requires
            old(self).is_readable(),
        ensures
            match old(self).outcome() {
                Ok(ValueView::SExp) => r is Ok && *r->Ok_0.reader == old(self).spec_reader()
                    && *final(r->Ok_0.reader) == final(self).spec_reader(),
                Ok(_) => r is Err && r->Err_0 == IonError::IllegalOperation && final(self).spec_reader() == old(self).spec_reader(),
                Err(e) => r is Err && r->Err_0 == e && final(self).spec_reader() == old(self).spec_reader(),
            },
    ;

    /// Reads a struct and returns a handle on it, which borrows the reader.
    fn read_struct(&mut self) -> (r: IonResult<StructRef<'_, 'a>>)
        requires
            old(self).is_readable(),
        ensures
            match old(self).outcome() {
                Ok(ValueView::Struct) => r is Ok && *r->Ok_0.reader == old(self).spec_reader()
                    && *final(r->Ok_0.reader) == final(self).spec_reader(),
                Ok(_) => r is Err && r->Err_0 == IonError::IllegalOperation && final(self).spec_reader() == old(self).spec_reader(),
                Err(e) => r is Err && r->Err_0 == e && final(self).spec_reader() == old(self).spec_reader(),
            },
    ;
}

impl<'a> ReadValueRef<'a> for UserReader<'a> {
    open spec fn is_readable(&self) -> bool {
        self.wf()
    }

    open spec fn outcome(&self) -> Result<ValueView, IonError> {
        match self.spec_raw().spec_current() {
            Some(value) => match decode_body(value.encoded_value.opcode, value.spec_body()) {
                Some(raw) => match resolved(raw, self.spec_table()) {
                    Some(view) => Ok(view),
                    None => Err(IonError::Decoding),
                },
                None => Err(IonError::Decoding),
            },
            None => Err(IonError::IllegalOperation),
        }
    }

    open spec fn spec_reader(&self) -> UserReader<'a> {
        *self
    }

    fn read_value(&mut self) -> (r: IonResult<ValueRef<'_, 'a>>) {
        UserReader::read_value(self)
    }

    fn read_null(&mut self) -> (r: IonResult<IonType>) {
        match UserReader::read_value(self) {
            Ok(value) => value.expect_null(),
            Err(e) => Err(e),
        }
    }

    fn read_bool(&mut self) -> (r: IonResult<bool>) {
        match UserReader::read_value(self) {
            Ok(value) => value.expect_bool(),
            Err(e) => Err(e),
        }
    }

    fn read_int(&mut self) -> (r: IonResult<Int>) {
        match UserReader::read_value(self) {
            Ok(value) => value.expect_int(),
            Err(e) => Err(e),
        }
    }

    fn read_float(&mut self) -> (r: IonResult<FloatBits>) {
        match UserReader::read_value(self) {
            Ok(value) => value.expect_float(),
            Err(e) => Err(e),
        }
    }

    fn read_decimal(&mut self) -> (r: IonResult<Decimal>) {
        match UserReader::read_value(self) {
            Ok(value) => value.expect_decimal(),
            Err(e) => Err(e),
        }
    }

    fn read_timestamp(&mut self) -> (r: IonResult<Timestamp>) {
        match UserReader::read_value(self) {
            Ok(value) => value.expect_timestamp(),
            Err(e) => Err(e),
        }
    }

    fn read_string(&mut self) -> (r: IonResult<&'a str>) {
        match UserReader::read_value(self) {
            Ok(value) => value.expect_string(),
            Err(e) => Err(e),
        }
    }

    fn read_symbol(&mut self) -> (r: IonResult<Symbol>) {
        match UserReader::read_value(self) {
            Ok(value) => value.expect_symbol(),
            Err(e) => Err(e),
        }
    }

    fn read_clob(&mut self) -> (r: IonResult<&'a [u8]>) {
        match UserReader::read_value(self) {
            Ok(value) => value.expect_clob(),
            Err(e) => Err(e),
        }
    }

    fn read_blob(&mut self) -> (r: IonResult<&'a [u8]>) {
        match UserReader::read_value(self) {
            Ok(value) => value.expect_blob(),
            Err(e) => Err(e),
        }
    }

    fn read_list(&mut self) -> (r: IonResult<SequenceRef<'_, 'a>>) {
        match UserReader::read_value(self) {
            Ok(value) => value.expect_list(),
            Err(e) => Err(e),
        }
    }

    fn read_sexp(&mut self) -> (r: IonResult<SequenceRef<'_, 'a>>) {
        match UserReader::read_value(self) {
            Ok(value) => value.expect_sexp(),
            Err(e) => Err(e),
        }
    }

    fn read_struct(&mut self) -> (r: IonResult<StructRef<'_, 'a>>) {
        match UserReader::read_value(self) {
            Ok(value) => value.expect_struct(),
            Err(e) => Err(e),
        }
    }
}

} // verus!
