//! The error type shared by every reader and writer in the crate.

use vstd::prelude::*;

verus! {

/// The ways an operation of this crate can fail.
#[derive(Debug, Clone, Copy, PartialEq, Eq, Structural)]
pub enum IonError {
    /// The input ran out in the middle of an item. `offset` is the stream
    /// position at which parsing should resume once more data is available.
    Incomplete { offset: usize },
    /// The input bytes are not well-formed Ion.
    Decoding,
    /// The caller asked for something the current state does not allow.
    IllegalOperation,
    /// The writer was handed a value it cannot represent.
    Encoding,
    /// The byte source or sink reported a failure.
    Io,
}

pub type IonResult<T> = Result<T, IonError>;

/// The two ways in which parsing a byte sequence can fail, as used by the
/// specification functions that describe the wire format.
pub enum ParseFault {
    /// More input is needed before the item can be decided.
    Incomplete,
    /// The input is malformed whatever follows it.
    Malformed,
}

impl IonError {
    /// A short, human-readable name of the error's kind.
    pub fn kind_name(&self) -> (name: &'static str)
        ensures
            name@ == match *self {
                IonError::Incomplete { .. } => "incomplete"@,
                IonError::Decoding => "decoding"@,
                IonError::IllegalOperation => "illegal operation"@,
                IonError::Encoding => "encoding"@,
                IonError::Io => "io"@,
            },
    {
        match self {
            IonError::Incomplete { .. } => "incomplete",
            IonError::Decoding => "decoding",
            IonError::IllegalOperation => "illegal operation",
            IonError::Encoding => "encoding",
            IonError::Io => "io",
        }
    }
}

/// Builds the error for input that ended at `offset`.
pub fn incomplete<T>(offset: usize) -> (r: IonResult<T>)
    ensures
        r == Err::<T, IonError>(IonError::Incomplete { offset }),
{
    Err(IonError::Incomplete { offset })
}

/// Builds the error for malformed input.
pub fn decoding_error<T>() -> (r: IonResult<T>)
    ensures
        r == Err::<T, IonError>(IonError::Decoding),
{
    Err(IonError::Decoding)
}

/// Builds the error for an operation the current state does not allow.
pub fn illegal_operation<T>() -> (r: IonResult<T>)
    ensures
        r == Err::<T, IonError>(IonError::IllegalOperation),
{
    Err(IonError::IllegalOperation)
}

/// Builds the error for a value the writer cannot represent.
pub fn encoding_error<T>() -> (r: IonResult<T>)
    ensures
        r == Err::<T, IonError>(IonError::Encoding),
{
    Err(IonError::Encoding)
}

} // verus!
