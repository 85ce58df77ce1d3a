//! The Ion data model's type names and the plain values that stand for scalars.

use vstd::prelude::*;

pub mod decimal;
pub mod integer;
pub mod timestamp;
pub mod value_ref;

verus! {

/// An index into the symbol table. ID 0 denotes a symbol with unknown text.
pub type SymbolId = usize;

/// The thirteen Ion data types.
#[derive(Debug, Clone, Copy, PartialEq, Eq, Structural, Hash)]
pub enum IonType {
    Null,
    Bool,
    Int,
    Float,
    Decimal,
    Timestamp,
    Symbol,
    String,
    Clob,
    Blob,
    List,
    SExp,
    Struct,
}

impl IonType {
    /// True for the three types whose values hold other values.
    pub open spec fn spec_is_container(&self) -> bool {
        self is List || self is SExp || self is Struct
    }

    /// Reports whether values of this type hold other values.
    #[verifier::when_used_as_spec(spec_is_container)]
    pub fn is_container(&self) -> (b: bool)
        ensures
            b == self.spec_is_container(),
    {
        match self {
            IonType::List | IonType::SExp | IonType::Struct => true,
            _ => false,
        }
    }

    /// The high nibble that a value of this type carries in Ion 1.0, for a
    /// non-negative integer in the case of `Int`.
    pub open spec fn spec_type_code(&self) -> u8 {
        match self {
            IonType::Null => 0,
            IonType::Bool => 1,
            IonType::Int => 2,
            IonType::Float => 4,
            IonType::Decimal => 5,
            IonType::Timestamp => 6,
            IonType::Symbol => 7,
            IonType::String => 8,
            IonType::Clob => 9,
            IonType::Blob => 10,
            IonType::List => 11,
            IonType::SExp => 12,
            IonType::Struct => 13,
        }
    }

    /// Returns the Ion 1.0 type code of this type.
    #[verifier::when_used_as_spec(spec_type_code)]
    pub fn type_code(&self) -> (code: u8)
        ensures
            code == self.spec_type_code(),
    {
        match self {
            IonType::Null => 0,
            IonType::Bool => 1,
            IonType::Int => 2,
            IonType::Float => 4,
            IonType::Decimal => 5,
            IonType::Timestamp => 6,
            IonType::Symbol => 7,
            IonType::String => 8,
            IonType::Clob => 9,
            IonType::Blob => 10,
            IonType::List => 11,
            IonType::SExp => 12,
            IonType::Struct => 13,
        }
    }
}

} // verus!
