//! What reading a lazy value yields.

use vstd::prelude::*;
use crate::binary::decimal::DecimalView;
use crate::binary::timestamp::TimestampView;
use crate::lazy::binary::raw::sequence::{LazyRawBinaryList_1_0, LazyRawBinarySExp_1_0};
use crate::lazy::binary::raw::structure::LazyRawBinaryStruct_1_0;
use crate::raw_symbol_token::RawSymbolTokenView;
use crate::raw_symbol_token_ref::RawSymbolTokenRef;
use crate::result::{IonError, IonResult};
use crate::types::decimal::Decimal;
use crate::types::integer::{FloatBits, Int};
use crate::types::timestamp::Timestamp;
use crate::types::IonType;

verus! {

/// A raw value as a mathematical value. Containers are named, not unfolded.
pub enum RawValueView {
    Null(IonType),
    Bool(bool),
    Int(int),
    Float(FloatBits),
    Decimal(DecimalView),
    Timestamp(TimestampView),
    String(Seq<char>),
    Symbol(RawSymbolTokenView),
    Blob(Seq<u8>),
    Clob(Seq<u8>),
    SExp,
    List,
    Struct,
}

/// A value read from the raw level: scalars are decoded, containers come as
/// handles whose children can be walked. Symbols are not resolved.
#[derive(Debug)]
pub enum RawValueRef<'top> {
    Null(IonType),
    Bool(bool),
    Int(Int),
    Float(FloatBits),
    Decimal(Decimal),
    Timestamp(Timestamp),
    String(&'top str),
    Symbol(RawSymbolTokenRef<'top>),
    Blob(&'top [u8]),
    Clob(&'top [u8]),
    SExp(LazyRawBinarySExp_1_0<'top>),
    List(LazyRawBinaryList_1_0<'top>),
    Struct(LazyRawBinaryStruct_1_0<'top>),
}

impl<'top> View for RawValueRef<'top> {
    type V = RawValueView;

    open spec fn view(&self) -> RawValueView {
        match self {
            RawValueRef::Null(ion_type) => RawValueView::Null(*ion_type),
            RawValueRef::Bool(b) => RawValueView::Bool(*b),
            RawValueRef::Int(i) => RawValueView::Int(i.value()),
            RawValueRef::Float(f) => RawValueView::Float(*f),
            RawValueRef::Decimal(d) => RawValueView::Decimal(d.view_parts()),
            RawValueRef::Timestamp(t) => RawValueView::Timestamp(t.view_parts()),
            RawValueRef::String(s) => RawValueView::String(s@),
            RawValueRef::Symbol(s) => RawValueView::Symbol(s@),
            RawValueRef::Blob(b) => RawValueView::Blob(b@),
            RawValueRef::Clob(c) => RawValueView::Clob(c@),
            RawValueRef::SExp(_) => RawValueView::SExp,
            RawValueRef::List(_) => RawValueView::List,
            RawValueRef::Struct(_) => RawValueView::Struct,
        }
    }
}

impl<'top> RawValueRef<'top> {
    /// True when the number that the value holds, if it holds one, is
    /// well-formed.
    pub open spec fn wf(&self) -> bool {
        match self {
            RawValueRef::Int(i) => i.wf(),
            RawValueRef::Decimal(d) => d.wf(),
            RawValueRef::Timestamp(t) => t.wf(),
            _ => true,
        }
    }

    /// Returns the type of the null; to ask any other value for it is an
    /// illegal operation.
    pub fn expect_null(self) -> (r: IonResult<IonType>)
        ensures
            match self {
                RawValueRef::Null(ion_type) => r == Ok::<IonType, IonError>(ion_type),
                _ => r == Err::<IonType, IonError>(IonError::IllegalOperation),
            },
    {
        if let RawValueRef::Null(ion_type) = self {
            Ok(ion_type)
        } else {
            Err(IonError::IllegalOperation)
        }
    }

    /// Returns the boolean; to ask any other value for it is an
    /// illegal operation.
    pub fn expect_bool(self) -> (r: IonResult<bool>)
        ensures
            match self {
                RawValueRef::Bool(b) => r == Ok::<bool, IonError>(b),
                _ => r == Err::<bool, IonError>(IonError::IllegalOperation),
            },
    {
        if let RawValueRef::Bool(b) = self {
            Ok(b)
        } else {
            Err(IonError::IllegalOperation)
        }
    }

    /// Returns the integer; to ask any other value for it is an
    /// illegal operation.
    pub fn expect_int(self) -> (r: IonResult<Int>)
        ensures
            match self {
                RawValueRef::Int(i) => r == Ok::<Int, IonError>(i),
                _ => r == Err::<Int, IonError>(IonError::IllegalOperation),
            },
    {
        if let RawValueRef::Int(i) = self {
            Ok(i)
        } else {
            Err(IonError::IllegalOperation)
        }
    }

    /// Returns the bits of the float; to ask any other value for it is an
    /// illegal operation.
    pub fn expect_float(self) -> (r: IonResult<FloatBits>)
        ensures
            match self {
                RawValueRef::Float(f) => r == Ok::<FloatBits, IonError>(f),
                _ => r == Err::<FloatBits, IonError>(IonError::IllegalOperation),
            },
    {
        if let RawValueRef::Float(f) = self {
            Ok(f)
        } else {
            Err(IonError::IllegalOperation)
        }
    }

    /// Returns the decimal; to ask any other value for it is an
    /// illegal operation.
    pub fn expect_decimal(self) -> (r: IonResult<Decimal>)
        ensures
            match self {
                RawValueRef::Decimal(d) => r == Ok::<Decimal, IonError>(d),
                _ => r == Err::<Decimal, IonError>(IonError::IllegalOperation),
            },
    {
        if let RawValueRef::Decimal(d) = self {
            Ok(d)
        } else {
            Err(IonError::IllegalOperation)
        }
    }

    /// Returns the timestamp; to ask any other value for it is an
    /// illegal operation.
    pub fn expect_timestamp(self) -> (r: IonResult<Timestamp>)
        ensures
            match self {
                RawValueRef::Timestamp(t) => r == Ok::<Timestamp, IonError>(t),
                _ => r == Err::<Timestamp, IonError>(IonError::IllegalOperation),
            },
    {
        if let RawValueRef::Timestamp(t) = self {
            Ok(t)
        } else {
            Err(IonError::IllegalOperation)
        }
    }

    /// Returns the text of the string; to ask any other value for it is an
    /// illegal operation.
    pub fn expect_string(self) -> (r: IonResult<&'top str>)
        ensures
            match self {
                RawValueRef::String(s) => r == Ok::<&'top str, IonError>(s),
                _ => r == Err::<&'top str, IonError>(IonError::IllegalOperation),
            },
    {
        if let RawValueRef::String(s) = self {
            Ok(s)
        } else {
            Err(IonError::IllegalOperation)
        }
    }

    /// Returns the symbol token; to ask any other value for it is an
    /// illegal operation.
    pub fn expect_symbol(self) -> (r: IonResult<RawSymbolTokenRef<'top>>)
        ensures
            match self {
                RawValueRef::Symbol(s) => r == Ok::<RawSymbolTokenRef<'top>, IonError>(s),
                _ => r == Err::<RawSymbolTokenRef<'top>, IonError>(IonError::IllegalOperation),
            },
    {
        if let RawValueRef::Symbol(s) = self {
            Ok(s)
        } else {
            Err(IonError::IllegalOperation)
        }
    }

    /// Returns the bytes of the blob; to ask any other value for it is an
    /// illegal operation.
    pub fn expect_blob(self) -> (r: IonResult<&'top [u8]>)
        ensures
            match self {
                RawValueRef::Blob(b) => r == Ok::<&'top [u8], IonError>(b),
                _ => r == Err::<&'top [u8], IonError>(IonError::IllegalOperation),
            },
    {
        if let RawValueRef::Blob(b) = self {
            Ok(b)
        } else {
            Err(IonError::IllegalOperation)
        }
    }

    /// Returns the bytes of the clob; to ask any other value for it is an
    /// illegal operation.
    pub fn expect_clob(self) -> (r: IonResult<&'top [u8]>)
        ensures
            match self {
                RawValueRef::Clob(c) => r == Ok::<&'top [u8], IonError>(c),
                _ => r == Err::<&'top [u8], IonError>(IonError::IllegalOperation),
            },
    {
        if let RawValueRef::Clob(c) = self {
            Ok(c)
        } else {
            Err(IonError::IllegalOperation)
        }
    }

    /// Returns the list; to ask any other value for it is an
    /// illegal operation.
    pub fn expect_list(self) -> (r: IonResult<LazyRawBinaryList_1_0<'top>>)
        ensures
            match self {
                RawValueRef::List(l) => r == Ok::<LazyRawBinaryList_1_0<'top>, IonError>(l),
                _ => r == Err::<LazyRawBinaryList_1_0<'top>, IonError>(IonError::IllegalOperation),
            },
    {
        if let RawValueRef::List(l) = self {
            Ok(l)
        } else {
            Err(IonError::IllegalOperation)
        }
    }

    /// Returns the s-expression; to ask any other value for it is an
    /// illegal operation.
    pub fn expect_sexp(self) -> (r: IonResult<LazyRawBinarySExp_1_0<'top>>)
        ensures
            match self {
                RawValueRef::SExp(s) => r == Ok::<LazyRawBinarySExp_1_0<'top>, IonError>(s),
                _ => r == Err::<LazyRawBinarySExp_1_0<'top>, IonError>(IonError::IllegalOperation),
            },
    {
        if let RawValueRef::SExp(s) = self {
            Ok(s)
        } else {
            Err(IonError::IllegalOperation)
        }
    }

    /// Returns the struct; to ask any other value for it is an
    /// illegal operation.
    pub fn expect_struct(self) -> (r: IonResult<LazyRawBinaryStruct_1_0<'top>>)
        ensures
            match self {
                RawValueRef::Struct(s) => r == Ok::<LazyRawBinaryStruct_1_0<'top>, IonError>(s),
                _ => r == Err::<LazyRawBinaryStruct_1_0<'top>, IonError>(IonError::IllegalOperation),
            },
    {
        if let RawValueRef::Struct(s) = self {
            Ok(s)
        } else {
            Err(IonError::IllegalOperation)
        }
    }
}

} // verus!
