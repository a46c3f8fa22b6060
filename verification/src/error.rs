//! The adapter's error taxonomy: engine-reported failures, a poisoned
//! session store, and a rejected (empty) request-flag sequence.

use vstd::prelude::*;

verus! {

/// An error code reported by the search engine's SDK, as read back after a
/// failed call. The SDK also has an `Ok` code; calls that come back with it
/// are successes, so no error value ever carries it.
#[derive(Debug, Clone, Copy, PartialEq, Eq)]
pub enum SdkError {
    /// The engine ran out of memory.
    Memory,
    /// The engine's search service is not running.
    Ipc,
    /// The engine could not register its window class.
    RegisterClassEx,
    /// The engine could not create its listening window.
    CreateWindow,
    /// The engine could not create its listening thread.
    CreateThread,
    /// A result row was addressed by an index outside the current window.
    InvalidIndex,
    /// A call was made in a state that does not allow it.
    InvalidCall,
    /// A row field was read that the current request flags did not ask for.
    InvalidRequest,
    /// A parameter was rejected by the engine.
    InvalidParameter,
}

/// A failure reported by the engine side: either an SDK error code, a
/// timeout while waiting for the engine's database, or a null pointer
/// handed back where a string was expected.
#[derive(Debug, Clone, Copy, PartialEq, Eq)]
pub enum EngineError {
    Sdk(SdkError),
    DatabaseTimeout,
    NullPointer,
}

/// Every failure a command can return, exactly three kinds: the engine
/// reported an error, the session store's lock is poisoned, or the caller
/// supplied an empty request-flag sequence.
#[derive(Debug, Clone, Copy, PartialEq, Eq)]
pub enum Error {
    /// The engine reported a failure; it is passed through verbatim.
    Everything(EngineError),
    /// A previous holder of the store's lock terminated while holding it;
    /// the store is no longer trustworthy and is never recovered.
    Poisoned,
    /// The flag-setting command was given an empty sequence.
    InvalidRequestFlags,
}

impl Error {
    /// The human-readable text of this error, one line per kind; callers
    /// that surface errors as strings use exactly this text.
    pub open spec fn spec_message(self) -> Seq<char> {
        match self {
            Error::Everything(EngineError::Sdk(SdkError::Memory)) => "Everything SDK error: Memory"@,
            Error::Everything(EngineError::Sdk(SdkError::Ipc)) => "Everything SDK error: Ipc"@,
            Error::Everything(EngineError::Sdk(SdkError::RegisterClassEx)) => "Everything SDK error: RegisterClassEx"@,
            Error::Everything(EngineError::Sdk(SdkError::CreateWindow)) => "Everything SDK error: CreateWindow"@,
            Error::Everything(EngineError::Sdk(SdkError::CreateThread)) => "Everything SDK error: CreateThread"@,
            Error::Everything(EngineError::Sdk(SdkError::InvalidIndex)) => "Everything SDK error: InvalidIndex"@,
            Error::Everything(EngineError::Sdk(SdkError::InvalidCall)) => "Everything SDK error: InvalidCall"@,
            Error::Everything(EngineError::Sdk(SdkError::InvalidRequest)) => "Everything SDK error: InvalidRequest"@,
            Error::Everything(EngineError::Sdk(SdkError::InvalidParameter)) => "Everything SDK error: InvalidParameter"@,
            Error::Everything(EngineError::DatabaseTimeout) => "Timeout waiting for Everything to respond"@,
            Error::Everything(EngineError::NullPointer) => "Null pointer returned by Everything SDK"@,
            Error::Poisoned => "Lock poisoned"@,
            Error::InvalidRequestFlags => "Invalid Request Flags"@,
        }
    }

    /// Serializes the error as its human-readable text.
    pub fn message(&self) -> (r: String)
        ensures
            r@ == self.spec_message(),
    {
        match self {
            Error::Everything(EngineError::Sdk(SdkError::Memory)) => "Everything SDK error: Memory".to_owned(),
            Error::Everything(EngineError::Sdk(SdkError::Ipc)) => "Everything SDK error: Ipc".to_owned(),
            Error::Everything(EngineError::Sdk(SdkError::RegisterClassEx)) => "Everything SDK error: RegisterClassEx".to_owned(),
            Error::Everything(EngineError::Sdk(SdkError::CreateWindow)) => "Everything SDK error: CreateWindow".to_owned(),
            Error::Everything(EngineError::Sdk(SdkError::CreateThread)) => "Everything SDK error: CreateThread".to_owned(),
            Error::Everything(EngineError::Sdk(SdkError::InvalidIndex)) => "Everything SDK error: InvalidIndex".to_owned(),
            Error::Everything(EngineError::Sdk(SdkError::InvalidCall)) => "Everything SDK error: InvalidCall".to_owned(),
            Error::Everything(EngineError::Sdk(SdkError::InvalidRequest)) => "Everything SDK error: InvalidRequest".to_owned(),
            Error::Everything(EngineError::Sdk(SdkError::InvalidParameter)) => "Everything SDK error: InvalidParameter".to_owned(),
            Error::Everything(EngineError::DatabaseTimeout) => "Timeout waiting for Everything to respond".to_owned(),
            Error::Everything(EngineError::NullPointer) => "Null pointer returned by Everything SDK".to_owned(),
            Error::Poisoned => "Lock poisoned".to_owned(),
            Error::InvalidRequestFlags => "Invalid Request Flags".to_owned(),
        }
    }
}

} // verus!
