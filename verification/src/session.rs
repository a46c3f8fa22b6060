//! The query-session model and the store that guards it.
//!
//! `Session` mirrors, as plain values, everything the adapter reads from or
//! writes to the engine's one query session: the configuration it applies
//! (search text, request-flag mask, sort code, pagination window) and the
//! result window the engine materialized for the most recent query. The
//! engine itself runs out of process; its report for a query enters through
//! [`SessionStore::query`] as an argument, and every command is verified
//! for each value that report may take.
//!
//! `SessionStore` adds the store's health: once a holder of the store's
//! lock has terminated abnormally, the store is poisoned and every later
//! command — reader or writer — fails with [`Error::Poisoned`]; nothing is
//! ever silently recovered.

use vstd::prelude::*;

use crate::error::{EngineError, Error, SdkError};
use crate::flags::{flags_to_mask, mask_of, RequestFlags};

verus! {

/// One matched entry of the engine's current result window. A field is
/// `None` when the engine could not produce its string for this row — for
/// example because the request flags in force did not ask for it.
pub struct ResultRow {
    pub full_path: Option<String>,
    pub file_name: Option<String>,
}

/// The adapter's view of the one query session: the configuration last
/// applied to the engine and the result window of the most recent query.
///
/// The starting values of the configuration fields are the engine's own
/// documented defaults: an empty search, the file-name and path request
/// bits, the name-ascending sort code, offset zero and an unbounded result
/// window.
pub struct Session {
    /// The active query string.
    pub search: String,
    /// The request-flag bitmask, a union of [`RequestFlags`] bits.
    pub flags_mask: u32,
    /// The engine's sort code, passed through without interpretation.
    pub sort: u32,
    /// The index the engine starts its result window from.
    pub offset: u32,
    /// The most results the engine materializes per query.
    pub max_results: u32,
    /// The result window of the most recent query; empty before the first.
    pub rows: Vec<ResultRow>,
    /// The page size that was in force when `rows` was filled: the
    /// `max_results` of that moment whenever the engine honored it. The
    /// window never outgrows this bound.
    pub page_limit: Ghost<u32>,
}

impl Session {
    /// The window is within the page size it was materialized under, and
    /// its row count fits the engine's result-count type.
    pub open spec fn wf(self) -> bool {
        &&& self.rows@.len() <= self.page_limit@
        &&& self.rows@.len() <= u32::MAX
    }
}

/// Whether the store may still be used. A store is poisoned when a prior
/// holder of its lock terminated abnormally while holding it; the session's
/// consistency can no longer be assumed, so the store stays unusable.
pub enum StoreStatus {
    Healthy,
    Poisoned,
}

/// The process-wide slot holding the one query session, together with its
/// health. Every command checks the health first — acquiring a poisoned
/// lock fails — and then applies exactly one operation to the session.
pub struct SessionStore {
    pub status: StoreStatus,
    pub session: Session,
}

/// The strings of every row whose full path the engine decoded, in row
/// order; rows without one are skipped.
pub open spec fn full_paths_of(rows: Seq<ResultRow>) -> Seq<String>
    decreases rows.len(),
{
    if rows.len() == 0 {
        Seq::empty()
    } else {
        let rest = full_paths_of(rows.drop_last());
        match rows.last().full_path {
            Some(p) => rest.push(p),
            None => rest,
        }
    }
}

/// The strings of every row whose file name the engine decoded, in row
/// order; rows without one are skipped.
pub open spec fn file_names_of(rows: Seq<ResultRow>) -> Seq<String>
    decreases rows.len(),
{
    if rows.len() == 0 {
        Seq::empty()
    } else {
        let rest = file_names_of(rows.drop_last());
        match rows.last().file_name {
            Some(n) => rest.push(n),
            None => rest,
        }
    }
}

/// Skipping rows never lengthens the page: a best-effort bulk read returns
/// at most one string per row of the window.
pub proof fn lemma_full_paths_len(rows: Seq<ResultRow>)
    ensures
        full_paths_of(rows).len() <= rows.len(),
    decreases rows.len(),
{
    if rows.len() > 0 {
        lemma_full_paths_len(rows.drop_last());
    }
}

/// Counterpart of [`lemma_full_paths_len`] for file names.
pub proof fn lemma_file_names_len(rows: Seq<ResultRow>)
    ensures
        file_names_of(rows).len() <= rows.len(),
    decreases rows.len(),
{
    if rows.len() > 0 {
        lemma_file_names_len(rows.drop_last());
    }
}

impl SessionStore {
    pub open spec fn wf(self) -> bool {
        self.session.wf()
    }

    /// A healthy store over a fresh, unconfigured session carrying the
    /// engine's documented defaults.
    pub fn new() -> (s: SessionStore)
        ensures
            s.wf(),
            s.status is Healthy,
            s.session.search@ == Seq::<char>::empty(),
            s.session.flags_mask == 0x3,
            s.session.sort == 1,
            s.session.offset == 0,
            s.session.max_results == u32::MAX,
            s.session.rows@.len() == 0,
            s.session.page_limit@ == u32::MAX,
    {
        SessionStore {
            status: StoreStatus::Healthy,
            session: Session {
                search: String::new(),
                flags_mask: 0x3,
                sort: 1,
                offset: 0,
                max_results: 0xFFFF_FFFF,
                rows: Vec::new(),
                page_limit: Ghost(0xFFFF_FFFFu32),
            },
        }
    }

    /// Marks the store as unusable. The host calls this when a critical
    /// section over the session terminated abnormally; from then on every
    /// command fails with [`Error::Poisoned`].
    pub fn poison(&mut self)
        ensures
            final(self).status is Poisoned,
            final(self).session == old(self).session,
    {
        self.status = StoreStatus::Poisoned;
    }

    /// Stores `text` as the active query string for the next query.
    pub fn set_search(&mut self, text: String) -> (r: Result<(), Error>)
        requires
            old(self).wf(),
        ensures
            final(self).wf(),
            old(self).status is Poisoned ==> r == Err::<(), Error>(Error::Poisoned) && *final(self)
                == *old(self),
            old(self).status is Healthy ==> {
                &&& r == Ok::<(), Error>(())
                &&& final(self).status is Healthy
                &&& final(self).session == (Session { search: text, ..old(self).session })
            },
    {
        match self.status {
            StoreStatus::Poisoned => Err(Error::Poisoned),
            StoreStatus::Healthy => {
                self.session.search = text;
                Ok(())
            },
        }
    }

    /// Reduces a non-empty flag sequence to its bitmask — the union of the
    /// individual flag bits — and applies it to the session. An empty
    /// sequence yields [`Error::InvalidRequestFlags`] and changes nothing.
    pub fn set_request_flags(&mut self, flags: &Vec<RequestFlags>) -> (r: Result<(), Error>)
        requires
            old(self).wf(),
        ensures
            final(self).wf(),
            old(self).status is Poisoned ==> r == Err::<(), Error>(Error::Poisoned) && *final(self)
                == *old(self),
            old(self).status is Healthy && flags@.len() == 0 ==> r == Err::<(), Error>(
                Error::InvalidRequestFlags,
            ) && *final(self) == *old(self),
            old(self).status is Healthy && flags@.len() > 0 ==> {
                &&& r == Ok::<(), Error>(())
                &&& final(self).status is Healthy
                &&& final(self).session == (Session {
                    flags_mask: mask_of(flags@),
                    ..old(self).session
                })
            },
    {
        match self.status {
            StoreStatus::Poisoned => Err(Error::Poisoned),
            StoreStatus::Healthy => match flags_to_mask(flags) {
                Ok(mask) => {
                    self.session.flags_mask = mask;
                    Ok(())
                },
                Err(e) => Err(e),
            },
        }
    }

    /// Applies a sort code verbatim; the engine owns its meaning.
    pub fn set_sort(&mut self, sort: u32) -> (r: Result<(), Error>)
        requires
            old(self).wf(),
        ensures
            final(self).wf(),
            old(self).status is Poisoned ==> r == Err::<(), Error>(Error::Poisoned) && *final(self)
                == *old(self),
            old(self).status is Healthy ==> {
                &&& r == Ok::<(), Error>(())
                &&& final(self).status is Healthy
                &&& final(self).session == (Session { sort, ..old(self).session })
            },
    {
        match self.status {
            StoreStatus::Poisoned => Err(Error::Poisoned),
            StoreStatus::Healthy => {
                self.session.sort = sort;
                Ok(())
            },
        }
    }

    /// Sets the index the engine starts its next result window from.
    pub fn set_result_offset(&mut self, offset: u32) -> (r: Result<(), Error>)
        requires
            old(self).wf(),
        ensures
            final(self).wf(),
            old(self).status is Poisoned ==> r == Err::<(), Error>(Error::Poisoned) && *final(self)
                == *old(self),
            old(self).status is Healthy ==> {
                &&& r == Ok::<(), Error>(())
                &&& final(self).status is Healthy
                &&& final(self).session == (Session { offset, ..old(self).session })
            },
    {
        match self.status {
            StoreStatus::Poisoned => Err(Error::Poisoned),
            StoreStatus::Healthy => {
                self.session.offset = offset;
                Ok(())
            },
        }
    }

    /// Sets the page size for the engine's next result window.
    pub fn set_max_results(&mut self, max_results: u32) -> (r: Result<(), Error>)
        requires
            old(self).wf(),
        ensures
            final(self).wf(),
            old(self).status is Poisoned ==> r == Err::<(), Error>(Error::Poisoned) && *final(self)
                == *old(self),
            old(self).status is Healthy ==> {
                &&& r == Ok::<(), Error>(())
                &&& final(self).status is Healthy
                &&& final(self).session == (Session { max_results, ..old(self).session })
            },
    {
        match self.status {
            StoreStatus::Poisoned => Err(Error::Poisoned),
            StoreStatus::Healthy => {
                self.session.max_results = max_results;
                Ok(())
            },
        }
    }

    /// Records the engine's report for one synchronous query execution.
    ///
    /// The engine runs the configured query out of process; the caller that
    /// performed that call hands its report in as `outcome`. On success the
    /// report carries the materialized result window, which replaces the
    /// session's rows — a conforming engine hands back at most
    /// `max_results` rows, and the page limit notes the bound the window
    /// was filled under. On an engine error nothing is applied at all.
    pub fn query(&mut self, outcome: Result<Vec<ResultRow>, EngineError>) -> (r: Result<
        (),
        Error,
    >)
        requires
            old(self).wf(),
            outcome is Ok ==> outcome->Ok_0@.len() <= u32::MAX,
        ensures
            final(self).wf(),
            old(self).status is Poisoned ==> r == Err::<(), Error>(Error::Poisoned) && *final(self)
                == *old(self),
            old(self).status is Healthy && outcome is Err ==> r == Err::<(), Error>(
                Error::Everything(outcome->Err_0),
            ) && *final(self) == *old(self),
            old(self).status is Healthy && outcome is Ok ==> {
                &&& r == Ok::<(), Error>(())
                &&& final(self).status is Healthy
                &&& final(self).session.rows == outcome->Ok_0
                &&& final(self).session == (Session {
                    rows: outcome->Ok_0,
                    page_limit: final(self).session.page_limit,
                    ..old(self).session
                })
                &&& outcome->Ok_0@.len() <= old(self).session.max_results
                    ==> final(self).session.page_limit@ == old(self).session.max_results
                &&& outcome->Ok_0@.len() > old(self).session.max_results
                    ==> final(self).session.page_limit@ == outcome->Ok_0@.len()
            },
    {
        match self.status {
            StoreStatus::Poisoned => Err(Error::Poisoned),
            StoreStatus::Healthy => match outcome {
                Err(e) => Err(Error::Everything(e)),
                Ok(rows) => {
                    let ghost lim: u32 = if rows@.len() <= self.session.max_results {
                        self.session.max_results
                    } else {
                        rows@.len() as u32
                    };
                    self.session.rows = rows;
                    self.session.page_limit = Ghost(lim);
                    Ok(())
                },
            },
        }
    }

    /// Returns the number of rows of the current result window — the
    /// count the most recent query materialized, zero before the first.
    pub fn get_num_results(&self) -> (r: Result<u32, Error>)
        requires
            self.wf(),
        ensures
            self.status is Poisoned ==> r == Err::<u32, Error>(Error::Poisoned),
            self.status is Healthy ==> r == Ok::<u32, Error>(self.session.rows@.len() as u32),
    {
        match self.status {
            StoreStatus::Poisoned => Err(Error::Poisoned),
            StoreStatus::Healthy => Ok(self.session.rows.len() as u32),
        }
    }

    /// Returns the full path of every row of the current window that has
    /// one, in row order; rows the engine could not decode are skipped
    /// rather than failing the whole page. The page returned never exceeds
    /// the window, nor the page size the window was filled under.
    pub fn get_full_path_results(&self) -> (r: Result<Vec<String>, Error>)
        requires
            self.wf(),
        ensures
            self.status is Poisoned ==> r == Err::<Vec<String>, Error>(Error::Poisoned),
            self.status is Healthy ==> {
                &&& r is Ok
                &&& r->Ok_0@ == full_paths_of(self.session.rows@)
                &&& r->Ok_0@.len() <= self.session.rows@.len()
                &&& r->Ok_0@.len() <= self.session.page_limit@
            },
    {
        match self.status {
            StoreStatus::Poisoned => Err(Error::Poisoned),
            StoreStatus::Healthy => {
                let rows = &self.session.rows;
                let mut out: Vec<String> = Vec::new();
                let mut i: usize = 0;
                while i < rows.len()
                    invariant
                        i <= rows@.len(),
                        out@ == full_paths_of(rows@.take(i as int)),
                    decreases rows@.len() - i,
                {
                    match &rows[i].full_path {
                        Some(p) => out.push(p.clone()),
                        None => (),
                    }
                    proof {
                        let taken = rows@.take(i + 1int);
                        assert(taken.drop_last() =~= rows@.take(i as int));
                        assert(taken.last() == rows@[i as int]);
                    }
                    i = i + 1;
                }
                proof {
                    assert(rows@.take(rows@.len() as int) =~= rows@);
                    lemma_full_paths_len(rows@);
                }
                Ok(out)
            },
        }
    }

    /// Returns the full path of exactly one row. An index at or past the
    /// window fails with the engine's invalid-index error; a row the
    /// engine could not produce the path for fails with its
    /// invalid-request error. Within the window the call never fails with
    /// the invalid-index error.
    pub fn get_result_full_path(&self, index: u32) -> (r: Result<String, Error>)
        requires
            self.wf(),
        ensures
            self.status is Poisoned ==> r == Err::<String, Error>(Error::Poisoned),
            self.status is Healthy && index as int >= self.session.rows@.len() ==> r == Err::<
                String,
                Error,
            >(Error::Everything(EngineError::Sdk(SdkError::InvalidIndex))),
            self.status is Healthy && (index as int) < self.session.rows@.len() ==> r == (
            match self.session.rows@[index as int].full_path {
                Some(p) => Ok::<String, Error>(p),
                None => Err::<String, Error>(
                    Error::Everything(EngineError::Sdk(SdkError::InvalidRequest)),
                ),
            }),
    {
        match self.status {
            StoreStatus::Poisoned => Err(Error::Poisoned),
            StoreStatus::Healthy => {
                if (index as usize) < self.session.rows.len() {
                    match &self.session.rows[index as usize].full_path {
                        Some(p) => Ok(p.clone()),
                        None => Err(Error::Everything(EngineError::Sdk(SdkError::InvalidRequest))),
                    }
                } else {
                    Err(Error::Everything(EngineError::Sdk(SdkError::InvalidIndex)))
                }
            },
        }
    }

    /// Counterpart of [`get_full_path_results`] for file names: one string
    /// per decodable row, in row order, undecodable rows skipped.
    pub fn get_file_name_results(&self) -> (r: Result<Vec<String>, Error>)
        requires
            self.wf(),
        ensures
            self.status is Poisoned ==> r == Err::<Vec<String>, Error>(Error::Poisoned),
            self.status is Healthy ==> {
                &&& r is Ok
                &&& r->Ok_0@ == file_names_of(self.session.rows@)
                &&& r->Ok_0@.len() <= self.session.rows@.len()
                &&& r->Ok_0@.len() <= self.session.page_limit@
            },
    {
        match self.status {
            StoreStatus::Poisoned => Err(Error::Poisoned),
            StoreStatus::Healthy => {
                let rows = &self.session.rows;
                let mut out: Vec<String> = Vec::new();
                let mut i: usize = 0;
                while i < rows.len()
                    invariant
                        i <= rows@.len(),
                        out@ == file_names_of(rows@.take(i as int)),
                    decreases rows@.len() - i,
                {
                    match &rows[i].file_name {
                        Some(n) => out.push(n.clone()),
                        None => (),
                    }
                    proof {
                        let taken = rows@.take(i + 1int);
                        assert(taken.drop_last() =~= rows@.take(i as int));
                        assert(taken.last() == rows@[i as int]);
                    }
                    i = i + 1;
                }
                proof {
                    assert(rows@.take(rows@.len() as int) =~= rows@);
                    lemma_file_names_len(rows@);
                }
                Ok(out)
            },
        }
    }

    /// Counterpart of [`get_result_full_path`] for one row's file name.
    pub fn get_result_file_name(&self, index: u32) -> (r: Result<String, Error>)
        requires
            self.wf(),
        ensures
            self.status is Poisoned ==> r == Err::<String, Error>(Error::Poisoned),
            self.status is Healthy && index as int >= self.session.rows@.len() ==> r == Err::<
                String,
                Error,
            >(Error::Everything(EngineError::Sdk(SdkError::InvalidIndex))),
            self.status is Healthy && (index as int) < self.session.rows@.len() ==> r == (
            match self.session.rows@[index as int].file_name {
                Some(n) => Ok::<String, Error>(n),
                None => Err::<String, Error>(
                    Error::Everything(EngineError::Sdk(SdkError::InvalidRequest)),
                ),
            }),
    {
        match self.status {
            StoreStatus::Poisoned => Err(Error::Poisoned),
            StoreStatus::Healthy => {
                if (index as usize) < self.session.rows.len() {
                    match &self.session.rows[index as usize].file_name {
                        Some(n) => Ok(n.clone()),
                        None => Err(Error::Everything(EngineError::Sdk(SdkError::InvalidRequest))),
                    }
                } else {
                    Err(Error::Everything(EngineError::Sdk(SdkError::InvalidIndex)))
                }
            },
        }
    }
}

impl Default for SessionStore {
    /// Same fresh store as [`SessionStore::new`].
    fn default() -> (s: SessionStore)
        ensures
            s.wf(),
            s.status is Healthy,
            s.session.search@ == Seq::<char>::empty(),
            s.session.flags_mask == 0x3,
            s.session.sort == 1,
            s.session.offset == 0,
            s.session.max_results == u32::MAX,
            s.session.rows@.len() == 0,
            s.session.page_limit@ == u32::MAX,
    {
        SessionStore::new()
    }
}

} // verus!
