//! Types that the lazy readers of every encoding share.

use vstd::prelude::*;
use crate::raw_symbol_token_ref::RawSymbolTokenRef;
use crate::result::{IonError, IonResult};

verus! {

/// Implemented by what occupies a range of the stream.
pub trait HasRange {
    /// The stream offset of the first byte.
    spec fn spec_start(&self) -> int;

    /// The stream offset after the last byte.
    spec fn spec_end(&self) -> int;

    /// True when the range can be asked for.
    spec fn has_range(&self) -> bool;

    fn range(&self) -> (range: core::ops::Range<usize>)
        requires
            self.has_range(),
        ensures
            range.start == self.spec_start(),
            range.end == self.spec_end(),
    ;
}

/// Implemented by what can hand out the input bytes it was matched on.
pub trait HasSpan<'top>: HasRange {
    /// The bytes that were matched.
    spec fn spec_span(&self) -> Seq<u8>;

    fn span(&self) -> (bytes: &'top [u8])
        requires
            self.has_range(),
        ensures
            bytes@ == self.spec_span(),
    ;
}

/// The type of the macro invocations of an encoding that has none. The
/// library never builds a value of it, and nothing outside this module can.
#[derive(Debug, Clone, Copy, PartialEq, Eq)]
pub struct Never {
    nothing: (),
}

/// An expression found in value position: a value literal, or in Ion 1.1 a
/// macro invocation. A value literal is a stream of exactly one value.
#[derive(Copy, Clone, Debug, PartialEq)]
pub enum RawValueExpr<V, M> {
    /// A value literal.
    ValueLiteral(V),
    /// An Ion 1.1 macro invocation.
    MacroInvocation(M),
}

impl<V, M> RawValueExpr<V, M> {
    /// Returns the value literal; a macro invocation is a decoding error.
    pub fn expect_value(self) -> (r: IonResult<V>)
        ensures
            match self {
                RawValueExpr::ValueLiteral(v) => r == Ok::<V, IonError>(v),
                RawValueExpr::MacroInvocation(_) => r == Err::<V, IonError>(IonError::Decoding),
            },
    {
        match self {
            RawValueExpr::ValueLiteral(v) => Ok(v),
            RawValueExpr::MacroInvocation(_m) => Err(IonError::Decoding),
        }
    }

    /// Returns the macro invocation; a value literal is a decoding error.
    pub fn expect_macro(self) -> (r: IonResult<M>)
        ensures
            match self {
                RawValueExpr::ValueLiteral(_) => r == Err::<M, IonError>(IonError::Decoding),
                RawValueExpr::MacroInvocation(m) => r == Ok::<M, IonError>(m),
            },
    {
        match self {
            RawValueExpr::ValueLiteral(_v) => Err(IonError::Decoding),
            RawValueExpr::MacroInvocation(m) => Ok(m),
        }
    }
}

/// A (name, value expression) pair representing a field in a struct.
#[derive(Copy, Clone, Debug)]
pub struct RawFieldExpr<N: Copy, V: Copy, M: Copy> {
    name: N,
    value_expr: RawValueExpr<V, M>,
}

impl<N: Copy, V: Copy, M: Copy> RawFieldExpr<N, V, M> {
    /// The name of the field.
    pub closed spec fn spec_name(&self) -> N {
        self.name
    }

    /// The expression in value position.
    pub closed spec fn spec_value_expr(&self) -> RawValueExpr<V, M> {
        self.value_expr
    }

    pub fn new(name: N, value_expr: RawValueExpr<V, M>) -> (field: Self)
        ensures
            field.spec_name() == name,
            field.spec_value_expr() == value_expr,
    {
        Self { name, value_expr }
    }

    pub fn into_pair(self) -> (pair: (N, RawValueExpr<V, M>))
        ensures
            pair.0 == self.spec_name(),
            pair.1 == self.spec_value_expr(),
    {
        (self.name, self.value_expr)
    }

    #[verifier::when_used_as_spec(spec_name)]
    pub fn name(&self) -> (name: N)
        ensures
            name == self.spec_name(),
    {
        self.name
    }

    #[verifier::when_used_as_spec(spec_value_expr)]
    pub fn value_expr(&self) -> (value_expr: RawValueExpr<V, M>)
        ensures
            value_expr == self.spec_value_expr(),
    {
        self.value_expr
    }

    /// Returns the name and the value literal; a macro invocation in value
    /// position is a decoding error.
    pub fn expect_name_value(self) -> (r: IonResult<(N, V)>)
        ensures
            match self.spec_value_expr() {
                RawValueExpr::ValueLiteral(v) => r == Ok::<(N, V), IonError>(
                    (self.spec_name(), v),
                ),
                RawValueExpr::MacroInvocation(_) => r == Err::<(N, V), IonError>(
                    IonError::Decoding,
                ),
            },
    {
        match self.value_expr {
            RawValueExpr::ValueLiteral(value) => Ok((self.name, value)),
            RawValueExpr::MacroInvocation(_) => Err(IonError::Decoding),
        }
    }

    /// Returns the name and the macro invocation; a value literal in value
    /// position is a decoding error.
    pub fn expect_name_macro(self) -> (r: IonResult<(N, M)>)
        ensures
            match self.spec_value_expr() {
                RawValueExpr::ValueLiteral(_) => r == Err::<(N, M), IonError>(IonError::Decoding),
                RawValueExpr::MacroInvocation(m) => r == Ok::<(N, M), IonError>(
                    (self.spec_name(), m),
                ),
            },
    {
        match self.value_expr {
            RawValueExpr::ValueLiteral(_) => Err(IonError::Decoding),
            RawValueExpr::MacroInvocation(invocation) => Ok((self.name, invocation)),
        }
    }
}

/// Implemented by the field names of every encoding.
pub trait LazyRawFieldName<'top>: HasSpan<'top> + Copy {
    /// The token that the name holds.
    spec fn spec_token(&self) -> crate::raw_symbol_token::RawSymbolTokenView;

    fn read(&self) -> (r: IonResult<RawSymbolTokenRef<'top>>)
        ensures
            r is Ok,
            r->Ok_0@ == self.spec_token(),
    ;
}

/// Implemented by the lazy containers, which are made from a value that was
/// found to be of their type.
pub trait LazyContainerPrivate<'top>: Sized {
    /// The value that the container was made from.
    spec fn spec_value(&self) -> crate::lazy::binary::raw::value::LazyRawBinaryValue_1_0<'top>;

    /// Constructs a new lazy raw container from a lazy raw value that has
    /// been confirmed to be of the correct type.
    fn from_value(value: crate::lazy::binary::raw::value::LazyRawBinaryValue_1_0<'top>) -> (container:
        Self)
        ensures
            container.spec_value() == value,
    ;
}

impl<V: HasRange, M: HasRange> HasRange for RawValueExpr<V, M> {
    open spec fn spec_start(&self) -> int {
        match self {
            RawValueExpr::ValueLiteral(value) => value.spec_start(),
            RawValueExpr::MacroInvocation(invocation) => invocation.spec_start(),
        }
    }

    open spec fn spec_end(&self) -> int {
        match self {
            RawValueExpr::ValueLiteral(value) => value.spec_end(),
            RawValueExpr::MacroInvocation(invocation) => invocation.spec_end(),
        }
    }

    open spec fn has_range(&self) -> bool {
        match self {
            RawValueExpr::ValueLiteral(value) => value.has_range(),
            RawValueExpr::MacroInvocation(invocation) => invocation.has_range(),
        }
    }

    fn range(&self) -> (range: core::ops::Range<usize>) {
        match self {
            RawValueExpr::ValueLiteral(value) => value.range(),
            RawValueExpr::MacroInvocation(invocation) => invocation.range(),
        }
    }
}

impl<'top, V: HasSpan<'top>, M: HasSpan<'top>> HasSpan<'top> for RawValueExpr<V, M> {
    open spec fn spec_span(&self) -> Seq<u8> {
        match self {
            RawValueExpr::ValueLiteral(value) => value.spec_span(),
            RawValueExpr::MacroInvocation(invocation) => invocation.spec_span(),
        }
    }

    fn span(&self) -> (bytes: &'top [u8]) {
        match self {
            RawValueExpr::ValueLiteral(value) => value.span(),
            RawValueExpr::MacroInvocation(invocation) => invocation.span(),
        }
    }
}

impl<N: Copy + HasRange, V: Copy + HasRange, M: Copy + HasRange> HasRange for RawFieldExpr<
    N,
    V,
    M,
> {
    /// A field starts where its name starts.
    open spec fn spec_start(&self) -> int {
        self.spec_name().spec_start()
    }

    /// A field ends where its value ends.
    open spec fn spec_end(&self) -> int {
        self.spec_value_expr().spec_end()
    }

    open spec fn has_range(&self) -> bool {
        self.spec_name().has_range() && self.spec_value_expr().has_range()
    }

    fn range(&self) -> (range: core::ops::Range<usize>) {
        self.name.range().start..self.value_expr.range().end
    }
}

impl HasRange for Never {
    open spec fn spec_start(&self) -> int {
        0
    }

    open spec fn spec_end(&self) -> int {
        0
    }

    open spec fn has_range(&self) -> bool {
        true
    }

    fn range(&self) -> (range: core::ops::Range<usize>) {
        0..0
    }
}

impl<'top> HasSpan<'top> for Never {
    open spec fn spec_span(&self) -> Seq<u8> {
        Seq::empty()
    }

    fn span(&self) -> (bytes: &'top [u8]) {
        &[]
    }
}

} // verus!
