//! The failures that the temporary-file operations report.
use vstd::prelude::*;
use vstd::string::StringExecFns;

verus! {

/// Why an operation on a temporary file failed.
#[derive(Debug, PartialEq, Eq)]
pub enum TempError {
    /// The request cannot be expressed on this platform at create time.
    Unsupported { msg: String },
    /// The operating system refused a call; `code` is its native error code.
    Os { code: i32 },
    /// Every candidate name of the retry budget was already taken.
    Exhausted,
}

impl TempError {
    /// A copy of this error.
    pub fn duplicate(&self) -> (r: TempError)
        ensures
            r == *self,
    {
        match self {
            TempError::Unsupported { msg } => TempError::Unsupported { msg: msg.clone() },
            TempError::Os { code } => TempError::Os { code: *code },
            TempError::Exhausted => TempError::Exhausted,
        }
    }
}

/// Fails with [`TempError::Unsupported`] carrying `msg`.
pub fn not_supported<T>(msg: &str) -> (r: Result<T, TempError>)
    ensures
        r matches Err(TempError::Unsupported { msg: m }) && m@ == msg@,
{
    Err(TempError::Unsupported { msg: String::from_str(msg) })
}

/// The result of a system call that reports success or a native error code.
pub fn call_result(outcome: Result<(), i32>) -> (r: Result<(), TempError>)
    ensures
        r == call_result_spec(outcome),
{
    match outcome {
        Ok(()) => Ok(()),
        Err(code) => Err(TempError::Os { code }),
    }
}

/// A failed call becomes [`TempError::Os`] with the same code.
pub open spec fn call_result_spec(outcome: Result<(), i32>) -> Result<(), TempError> {
    match outcome {
        Ok(()) => Ok(()),
        Err(code) => Err(TempError::Os { code }),
    }
}

} // verus!
