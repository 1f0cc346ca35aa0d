//! Table of contents resolution of a subsystem facade (log, parameters,
//! memory): consult the cache first, download only on a miss, store what was
//! downloaded, and reuse the resolved table for the rest of the facade's life.

use crate::session::{FacadeHandle, SessionError, SessionRegistry};
use crate::toc_cache::{copy_bytes, TocCache};
use vstd::prelude::*;

verus! {

/// Outcome of asking a facade for its table of contents.
pub enum TocStep {
    /// The table is known.
    Ready(Vec<u8>),
    /// The table has to be downloaded; hand it over with `install_fetched`.
    Fetch,
}

/// A facade of a subsystem that indexes remote data through a table of contents.
pub struct TocFacade {
    handle: FacadeHandle,
    table: Option<Vec<u8>>,
}

impl TocFacade {
    /// The handle this facade was attached through.
    pub closed spec fn attached(&self) -> FacadeHandle {
        self.handle
    }

    /// The handle this facade was attached through.
    pub fn handle(&self) -> (r: FacadeHandle)
        ensures
            r == self.attached(),
    {
        self.handle
    }

    /// The table this facade resolved, if any.
    pub closed spec fn resolved(&self) -> Option<Seq<u8>> {
        match self.table {
            Some(t) => Some(t@),
            None => None,
        }
    }

    /// A facade attached through `handle` that has not resolved its table yet.
    pub fn new(handle: FacadeHandle) -> (r: TocFacade)
        ensures
            r.attached() == handle,
            r.resolved() is None,
    {
        TocFacade { handle, table: None }
    }

    /// Whether the table has been resolved.
    pub fn is_resolved(&self) -> (r: bool)
        ensures
            r == self.resolved() is Some,
    {
        self.table.is_some()
    }

    /// Resolves the table of contents for fingerprint `key`: the table already
    /// resolved if there is one (the cache is not consulted again), else the
    /// cached table, else a request to download it. Fails while the session is
    /// closed.
    pub fn resolve<C: TocCache>(&mut self, sessions: &SessionRegistry, cache: &C, key: &Vec<u8>) -> (r: Result<TocStep, SessionError>)
        requires
            cache.inv(),
        ensures
            final(self).attached() == old(self).attached(),
            match sessions.admission(old(self).attached().session) {
                Err(e) => r == Err::<TocStep, SessionError>(e) && final(self).resolved() == old(self).resolved(),
                Ok(_) => match old(self).resolved() {
                    Some(t) => final(self).resolved() == Some(t) && match r {
                        Ok(TocStep::Ready(x)) => x@ == t,
                        _ => false,
                    },
                    None => if cache.entries().contains_key(key@) {
                        final(self).resolved() == Some(cache.entries()[key@]) && match r {
                            Ok(TocStep::Ready(x)) => x@ == cache.entries()[key@],
                            _ => false,
                        }
                    } else {
                        final(self).resolved() is None && r matches Ok(TocStep::Fetch)
                    },
                },
            },
    {
        match sessions.check_facade(&self.handle) {
            Err(e) => Err(e),
            Ok(()) => {
                match &self.table {
                    Some(t) => Ok(TocStep::Ready(copy_bytes(t))),
                    None => match cache.lookup(key) {
                        Some(t) => {
                            let x = copy_bytes(&t);
                            self.table = Some(t);
                            Ok(TocStep::Ready(x))
                        },
                        None => Ok(TocStep::Fetch),
                    },
                }
            },
        }
    }

    /// Takes a downloaded table: it is stored in the cache under `key`, then
    /// becomes this facade's table. A facade that already has a table keeps it
    /// and stores nothing, so a table is never mixed with a second download.
    pub fn install_fetched<C: TocCache>(
        &mut self,
        sessions: &SessionRegistry,
        cache: &mut C,
        key: &Vec<u8>,
        table: Vec<u8>,
    ) -> (r: Result<Vec<u8>, SessionError>)
        requires
            old(cache).inv(),
        ensures
            final(self).attached() == old(self).attached(),
            final(cache).inv(),
            match sessions.admission(old(self).attached().session) {
                Err(e) => {
                    &&& r == Err::<Vec<u8>, SessionError>(e)
                    &&& final(self).resolved() == old(self).resolved()
                    &&& *final(cache) == *old(cache)
                },
                Ok(_) => match old(self).resolved() {
                    Some(t) => {
                        &&& final(self).resolved() == Some(t)
                        &&& *final(cache) == *old(cache)
                        &&& match r {
                            Ok(x) => x@ == t,
                            Err(_) => false,
                        }
                    },
                    None => {
                        &&& final(self).resolved() == Some(table@)
                        &&& final(cache).retains() == old(cache).retains()
                        &&& final(cache).entries() == (if old(cache).retains() {
                            old(cache).entries().insert(key@, table@)
                        } else {
                            old(cache).entries()
                        })
                        &&& match r {
                            Ok(x) => x@ == table@,
                            Err(_) => false,
                        }
                    },
                },
            },
    {
        match sessions.check_facade(&self.handle) {
            Err(e) => Err(e),
            Ok(()) => {
                match &self.table {
                    Some(t) => Ok(copy_bytes(t)),
                    None => {
                        cache.store(key, &table);
                        let x = copy_bytes(&table);
                        self.table = Some(table);
                        Ok(x)
                    },
                }
            },
        }
    }
}

} // verus!
