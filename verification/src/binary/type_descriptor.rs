//! The type descriptor byte that starts every Ion 1.0 value.
//!
//! The high nibble of the byte is the type code, the low nibble the length
//! code `L`. `L` = 14 says that the length follows as a `VarUInt`; `L` = 15
//! says that the value is the null of its type.

use vstd::prelude::*;
use crate::types::IonType;

verus! {

/// The length code that announces a `VarUInt` length.
pub const LENGTH_CODE_VAR_UINT: u8 = 14;

/// The length code of a null value.
pub const LENGTH_CODE_NULL: u8 = 15;

/// The type code of an annotations wrapper.
pub const TYPE_CODE_ANNOTATION: u8 = 14;

/// The first byte of an Ion version marker.
pub const IVM_START: u8 = 0xE0;

/// The last byte of an Ion version marker.
pub const IVM_END: u8 = 0xEA;

/// The high nibble of `opcode`.
pub open spec fn type_code_of(opcode: u8) -> u8 {
    opcode / 16
}

/// The low nibble of `opcode`.
pub open spec fn length_code_of(opcode: u8) -> u8 {
    opcode % 16
}

/// True for a byte that starts NOP padding: type code 0 with any length code
/// but 15, which is `null.null`.
pub open spec fn is_nop_opcode(opcode: u8) -> bool {
    opcode / 16 == 0 && opcode % 16 != 15
}

/// True for a byte that starts an annotations wrapper.
pub open spec fn is_annotation_opcode(opcode: u8) -> bool {
    opcode / 16 == 14
}

/// The Ion type of the value that `opcode` starts; `None` for NOP padding,
/// annotations wrappers and the reserved type code 15.
pub open spec fn ion_type_of(opcode: u8) -> Option<IonType> {
    let code = opcode / 16;
    if code == 0 {
        if opcode % 16 == 15 {
            Some(IonType::Null)
        } else {
            None
        }
    } else if code == 1 {
        Some(IonType::Bool)
    } else if code == 2 || code == 3 {
        Some(IonType::Int)
    } else if code == 4 {
        Some(IonType::Float)
    } else if code == 5 {
        Some(IonType::Decimal)
    } else if code == 6 {
        Some(IonType::Timestamp)
    } else if code == 7 {
        Some(IonType::Symbol)
    } else if code == 8 {
        Some(IonType::String)
    } else if code == 9 {
        Some(IonType::Clob)
    } else if code == 10 {
        Some(IonType::Blob)
    } else if code == 11 {
        Some(IonType::List)
    } else if code == 12 {
        Some(IonType::SExp)
    } else if code == 13 {
        Some(IonType::Struct)
    } else {
        None
    }
}

/// A type descriptor byte, split into its two nibbles on demand.
#[derive(Debug, Clone, Copy, PartialEq, Eq, Structural)]
pub struct TypeDescriptor {
    pub opcode: u8,
}

impl TypeDescriptor {
    pub fn new(opcode: u8) -> (d: Self)
        ensures
            d.opcode == opcode,
    {
        TypeDescriptor { opcode }
    }

    /// Returns the high nibble.
    pub fn type_code(&self) -> (code: u8)
        ensures
            code == type_code_of(self.opcode),
            code < 16,
    {
        self.opcode / 16
    }

    /// Returns the low nibble.
    pub fn length_code(&self) -> (code: u8)
        ensures
            code == length_code_of(self.opcode),
            code < 16,
    {
        self.opcode % 16
    }

    /// Reports whether this byte starts NOP padding.
    pub fn is_nop(&self) -> (b: bool)
        ensures
            b == is_nop_opcode(self.opcode),
    {
        self.opcode / 16 == 0 && self.opcode % 16 != LENGTH_CODE_NULL
    }

    /// Reports whether the length code says "null".
    pub fn is_null(&self) -> (b: bool)
        ensures
            b == (length_code_of(self.opcode) == 15),
    {
        self.opcode % 16 == LENGTH_CODE_NULL
    }

    /// Reports whether this byte is the first byte of a version marker.
    pub fn is_ivm_start(&self) -> (b: bool)
        ensures
            b == (self.opcode == 0xE0),
    {
        self.opcode == IVM_START
    }

    /// Reports whether this byte starts an annotations wrapper.
    pub fn is_annotation_wrapper(&self) -> (b: bool)
        ensures
            b == is_annotation_opcode(self.opcode),
    {
        self.opcode / 16 == TYPE_CODE_ANNOTATION
    }

    /// Returns the Ion type of the value that this byte starts, if it starts
    /// one.
    pub fn ion_type(&self) -> (t: Option<IonType>)
        ensures
            t == ion_type_of(self.opcode),
    {
        let code = self.opcode / 16;
        if code == 0 {
            if self.opcode % 16 == LENGTH_CODE_NULL {
                Some(IonType::Null)
            } else {
                None
            }
        } else if code == 1 {
            Some(IonType::Bool)
        } else if code == 2 || code == 3 {
            Some(IonType::Int)
        } else if code == 4 {
            Some(IonType::Float)
        } else if code == 5 {
            Some(IonType::Decimal)
        } else if code == 6 {
            Some(IonType::Timestamp)
        } else if code == 7 {
            Some(IonType::Symbol)
        } else if code == 8 {
            Some(IonType::String)
        } else if code == 9 {
            Some(IonType::Clob)
        } else if code == 10 {
            Some(IonType::Blob)
        } else if code == 11 {
            Some(IonType::List)
        } else if code == 12 {
            Some(IonType::SExp)
        } else if code == 13 {
            Some(IonType::Struct)
        } else {
            None
        }
    }
}

} // verus!
