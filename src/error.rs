use vstd::prelude::*;

verus! {

/// A failure reported by the storage layer: connectivity loss, a constraint
/// violation, a decoding failure, a timeout. It carries the storage layer's
/// own description of the cause.
#[derive(Debug, PartialEq, Eq)]
pub struct StorageError {
    pub message: String,
}

impl StorageError {
    pub fn new(message: String) -> (r: StorageError)
        ensures
            r.message@ == message@,
    {
        StorageError { message }
    }
}

/// The domain error: every storage failure is wrapped, once, at the
/// repository boundary, into the one kind callers see.
#[derive(Debug, PartialEq, Eq)]
pub enum AppError {
    SpecificOperationError(StorageError),
}

pub type AppResult<T> = Result<T, AppError>;

/// Wraps a storage failure into the domain error, keeping the cause.
pub fn translate_error(cause: StorageError) -> (r: AppError)
    ensures
        r == AppError::SpecificOperationError(cause),
{
    AppError::SpecificOperationError(cause)
}

} // verus!
