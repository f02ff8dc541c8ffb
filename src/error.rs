//! Errors of the store and of the application config adapter.

use vstd::prelude::*;

verus! {

/// Why a store or config operation failed; the text is the diagnostic of
/// the underlying failure.
#[derive(Debug, Clone, PartialEq, Eq)]
pub enum StoreError {
    /// The file exists but could not be read.
    Read(String),
    /// The file's content is not a well-formed value of the expected shape.
    Parse(String),
    /// The file could not be written.
    Write(String),
    /// The value could not be encoded.
    Serialize(String),
    /// No file exists where one is needed.
    NotFound,
}

/// What reading a file gave.
#[derive(Debug, Clone, PartialEq, Eq)]
pub enum Loaded<T> {
    /// No file exists at the path.
    Absent,
    /// The file exists and reading it failed.
    Unreadable(String),
    /// The file was read and its content did not parse.
    Malformed(String),
    /// The file was read and parsed.
    Parsed(T),
}

/// What encoding a value and writing it to a file gave.
#[derive(Debug, Clone, PartialEq, Eq)]
pub enum Persisted {
    Written,
    SerializeFailed(String),
    WriteFailed(String),
}

/// The store result of an encode-and-write outcome.
pub open spec fn persist_result_spec(outcome: Persisted) -> Result<(), StoreError> {
    match outcome {
        Persisted::Written => Ok(()),
        Persisted::SerializeFailed(e) => Err(StoreError::Serialize(e)),
        Persisted::WriteFailed(e) => Err(StoreError::Write(e)),
    }
}

/// The result of an encode-and-write attempt, as a store result.
pub fn persist_result(outcome: Persisted) -> (r: Result<(), StoreError>)
    ensures
        r == persist_result_spec(outcome),
{
    match outcome {
        Persisted::Written => Ok(()),
        Persisted::SerializeFailed(e) => Err(StoreError::Serialize(e)),
        Persisted::WriteFailed(e) => Err(StoreError::Write(e)),
    }
}

} // verus!
