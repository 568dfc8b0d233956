use vstd::prelude::*;
use vstd::string::*;

verus! {

/// The ways in which managing a worker can fail.
#[derive(Debug, Clone, Copy, PartialEq, Eq)]
pub enum WorkerError {
    SomeError,
    AnotherError,
    ThreadWriteError,
}

/// The text shown for a worker error: "WorkerError: " followed by the variant's name.
pub open spec fn worker_error_text(error: WorkerError) -> Seq<char> {
    match error {
        WorkerError::SomeError => "WorkerError: SomeError"@,
        WorkerError::AnotherError => "WorkerError: AnotherError"@,
        WorkerError::ThreadWriteError => "WorkerError: ThreadWriteError"@,
    }
}

impl WorkerError {
    /// The text shown for this error.
    pub fn to_string(&self) -> (text: String)
        ensures
            text@ == worker_error_text(*self),
    {
        match self {
            WorkerError::SomeError => String::from_str("WorkerError: SomeError"),
            WorkerError::AnotherError => String::from_str("WorkerError: AnotherError"),
            WorkerError::ThreadWriteError => String::from_str("WorkerError: ThreadWriteError"),
        }
    }
}

} // verus!
