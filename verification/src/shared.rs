//! The process-wide, concurrency-safe wrapper over the one session store.
//!
//! A reader/writer lock is the sole serialization point: mutators and the
//! query command take it exclusively, pure accessors take it shared, so a
//! writer's effect is atomic from any reader's point of view — no reader
//! can observe a partially mutated session, and two writers never overlap.
//! The lock's invariant keeps every stored value well formed.
//!
//! The lock itself cannot poison; the store's health is part of the stored
//! value, set through [`SharedStore::poison`] by a host that saw a critical
//! section over the session end abnormally, and checked first by every
//! command (see [`SessionStore`]).

use vstd::prelude::*;
use vstd::rwlock::{RwLock, RwLockPredicate};

use crate::error::{EngineError, Error, SdkError};
use crate::flags::RequestFlags;
use crate::session::{ResultRow, SessionStore};

verus! {

/// The lock invariant: every value stored in the lock is well formed.
pub struct StorePred;

impl RwLockPredicate<SessionStore> for StorePred {
    open spec fn inv(self, v: SessionStore) -> bool {
        v.wf()
    }
}

/// One shared session store behind a reader/writer lock. Construct it once
/// at process startup and hand a reference to every caller; each command
/// is one critical section.
pub struct SharedStore {
    lock: RwLock<SessionStore, StorePred>,
}

impl SharedStore {
    /// A shared store over a fresh, healthy session.
    pub fn new() -> SharedStore {
        SharedStore { lock: RwLock::new(SessionStore::new(), Ghost(StorePred)) }
    }

    /// Marks the store poisoned; every later command fails.
    pub fn poison(&self) {
        let (mut store, handle) = self.lock.acquire_write();
        store.poison();
        handle.release_write(store);
    }

    /// Stores the active query string. Fails only on a poisoned store.
    pub fn set_search(&self, text: String) -> (r: Result<(), Error>)
        ensures
            r is Err ==> r->Err_0 == Error::Poisoned,
    {
        let (mut store, handle) = self.lock.acquire_write();
        let r = store.set_search(text);
        handle.release_write(store);
        r
    }

    /// Reduces the flag sequence to its bitmask and applies it. An empty
    /// sequence never succeeds; a non-empty one fails only on a poisoned
    /// store.
    pub fn set_request_flags(&self, flags: &Vec<RequestFlags>) -> (r: Result<(), Error>)
        ensures
            r is Err ==> r->Err_0 == Error::Poisoned || r->Err_0 == Error::InvalidRequestFlags,
            flags@.len() == 0 ==> r is Err,
            r is Ok ==> flags@.len() > 0,
    {
        let (mut store, handle) = self.lock.acquire_write();
        let r = store.set_request_flags(flags);
        handle.release_write(store);
        r
    }

    /// Applies a sort code verbatim. Fails only on a poisoned store.
    pub fn set_sort(&self, sort: u32) -> (r: Result<(), Error>)
        ensures
            r is Err ==> r->Err_0 == Error::Poisoned,
    {
        let (mut store, handle) = self.lock.acquire_write();
        let r = store.set_sort(sort);
        handle.release_write(store);
        r
    }

    /// Sets the pagination offset. Fails only on a poisoned store.
    pub fn set_result_offset(&self, offset: u32) -> (r: Result<(), Error>)
        ensures
            r is Err ==> r->Err_0 == Error::Poisoned,
    {
        let (mut store, handle) = self.lock.acquire_write();
        let r = store.set_result_offset(offset);
        handle.release_write(store);
        r
    }

    /// Sets the page size. Fails only on a poisoned store.
    pub fn set_max_results(&self, max_results: u32) -> (r: Result<(), Error>)
        ensures
            r is Err ==> r->Err_0 == Error::Poisoned,
    {
        let (mut store, handle) = self.lock.acquire_write();
        let r = store.set_max_results(max_results);
        handle.release_write(store);
        r
    }

    /// Records the engine's report for one query execution: an engine
    /// error is passed through verbatim, a successful report replaces the
    /// session's result window.
    pub fn query(&self, outcome: Result<Vec<ResultRow>, EngineError>) -> (r: Result<(), Error>)
        requires
            outcome is Ok ==> outcome->Ok_0@.len() <= u32::MAX,
        ensures
            outcome is Ok ==> r == Ok::<(), Error>(()) || r == Err::<(), Error>(Error::Poisoned),
            outcome is Err ==> r == Err::<(), Error>(Error::Everything(outcome->Err_0)) || r
                == Err::<(), Error>(Error::Poisoned),
    {
        let (mut store, handle) = self.lock.acquire_write();
        let r = store.query(outcome);
        handle.release_write(store);
        r
    }

    /// Returns the current result window's row count. Fails only on a
    /// poisoned store.
    pub fn get_num_results(&self) -> (r: Result<u32, Error>)
        ensures
            r is Err ==> r->Err_0 == Error::Poisoned,
    {
        let handle = self.lock.acquire_read();
        let r = handle.borrow().get_num_results();
        handle.release_read();
        r
    }

    /// Returns every decodable full path of the current window, in row
    /// order. Fails only on a poisoned store.
    pub fn get_full_path_results(&self) -> (r: Result<Vec<String>, Error>)
        ensures
            r is Err ==> r->Err_0 == Error::Poisoned,
    {
        let handle = self.lock.acquire_read();
        let r = handle.borrow().get_full_path_results();
        handle.release_read();
        r
    }

    /// Returns one row's full path. Besides a poisoned store, it fails
    /// exactly as the engine reports: invalid index outside the window,
    /// invalid request for a row whose path was not produced.
    pub fn get_result_full_path(&self, index: u32) -> (r: Result<String, Error>)
        ensures
            r is Err ==> r->Err_0 == Error::Poisoned || r->Err_0 == Error::Everything(
                EngineError::Sdk(SdkError::InvalidIndex),
            ) || r->Err_0 == Error::Everything(EngineError::Sdk(SdkError::InvalidRequest)),
    {
        let handle = self.lock.acquire_read();
        let r = handle.borrow().get_result_full_path(index);
        handle.release_read();
        r
    }

    /// Returns every decodable file name of the current window, in row
    /// order. Fails only on a poisoned store.
    pub fn get_file_name_results(&self) -> (r: Result<Vec<String>, Error>)
        ensures
            r is Err ==> r->Err_0 == Error::Poisoned,
    {
        let handle = self.lock.acquire_read();
        let r = handle.borrow().get_file_name_results();
        handle.release_read();
        r
    }

    /// Returns one row's file name, failing as [`Self::get_result_full_path`]
    /// does.
    pub fn get_result_file_name(&self, index: u32) -> (r: Result<String, Error>)
        ensures
            r is Err ==> r->Err_0 == Error::Poisoned || r->Err_0 == Error::Everything(
                EngineError::Sdk(SdkError::InvalidIndex),
            ) || r->Err_0 == Error::Everything(EngineError::Sdk(SdkError::InvalidRequest)),
    {
        let handle = self.lock.acquire_read();
        let r = handle.borrow().get_result_file_name(index);
        handle.release_read();
        r
    }
}

} // verus!
