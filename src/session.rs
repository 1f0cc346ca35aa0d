//! Lifetime of connection sessions and of the subsystem facades attached to
//! them. Sessions live in a registry and are named by index; a facade holds the
//! index of its session, so a session that closes is seen as closed by every
//! facade derived from it at once.

use vstd::prelude::*;

verus! {

/// Why an operation on a facade was refused.
#[derive(Debug, Clone, Copy, PartialEq, Eq, Structural)]
pub enum SessionError {
    /// The session the facade belongs to has been closed.
    ConnectionClosed,
    /// The session was never opened in this registry.
    UnknownSession,
}

impl SessionError {
    /// Human readable description of the error.
    pub fn message(&self) -> (r: String)
        ensures
            r@ == (match self {
                SessionError::ConnectionClosed => "Connection closed"@,
                SessionError::UnknownSession => "Unknown session"@,
            }),
    {
        match self {
            SessionError::ConnectionClosed => String::from_str("Connection closed"),
            SessionError::UnknownSession => String::from_str("Unknown session"),
        }
    }
}

/// Name of a session within its registry.
#[derive(Debug, Clone, Copy, PartialEq, Eq, Structural)]
pub struct SessionId {
    pub index: usize,
}

/// The logical subsystems a session is split into.
#[derive(Debug, Clone, Copy, PartialEq, Eq, Structural)]
pub enum Subsystem {
    Log,
    Param,
    Memory,
    Console,
    Commander,
    Localization,
}

/// A subsystem's handle on the session it was attached to.
#[derive(Debug, Clone, Copy, PartialEq, Eq, Structural)]
pub struct FacadeHandle {
    pub session: SessionId,
    pub subsystem: Subsystem,
}

/// Every session opened so far, with whether it is still open.
pub struct SessionRegistry {
    open: Vec<bool>,
}

impl SessionRegistry {
    /// Open flag of each session, by index.
    pub closed spec fn states(&self) -> Seq<bool> {
        self.open@
    }

    /// Whether session `id` exists and is open.
    pub open spec fn is_open(&self, id: SessionId) -> bool {
        id.index < self.states().len() && self.states()[id.index as int]
    }

    /// Outcome of the admission check that every facade operation passes first.
    pub open spec fn admission(&self, id: SessionId) -> Result<(), SessionError> {
        if id.index >= self.states().len() {
            Err(SessionError::UnknownSession)
        } else if self.states()[id.index as int] {
            Ok(())
        } else {
            Err(SessionError::ConnectionClosed)
        }
    }

    /// `self` is a later state of `before`: no session disappeared, and none
    /// that was closed opened again.
    pub open spec fn follows(&self, before: &SessionRegistry) -> bool {
        &&& before.states().len() <= self.states().len()
        &&& forall|i: int| 0 <= i < before.states().len() && !before.states()[i]
            ==> !#[trigger] self.states()[i]
    }

    /// A registry with no session.
    pub fn new() -> (r: SessionRegistry)
        ensures
            r.states() == Seq::<bool>::empty(),
    {
        SessionRegistry { open: Vec::new() }
    }

    /// Registers a new live session.
    pub fn open_session(&mut self) -> (r: SessionId)
        ensures
            final(self).states() == old(self).states().push(true),
            r.index == old(self).states().len(),
            final(self).follows(old(self)),
    {
        let index = self.open.len();
        self.open.push(true);
        SessionId { index }
    }

    /// Marks a session closed, on disconnect or after a link failure. Closing is
    /// final.
    pub fn close(&mut self, id: SessionId)
        ensures
            final(self).states() == (if id.index < old(self).states().len() {
                old(self).states().update(id.index as int, false)
            } else {
                old(self).states()
            }),
            !final(self).is_open(id),
            final(self).follows(old(self)),
    {
        if id.index < self.open.len() {
            self.open.set(id.index, false);
        }
    }

    /// Whether session `id` is open.
    pub fn check_open(&self, id: SessionId) -> (r: Result<(), SessionError>)
        ensures
            r == self.admission(id),
            r is Ok <==> self.is_open(id),
    {
        if id.index >= self.open.len() {
            Err(SessionError::UnknownSession)
        } else if self.open[id.index] {
            Ok(())
        } else {
            Err(SessionError::ConnectionClosed)
        }
    }

    /// Attaches a facade for `subsystem` to session `id`; no I/O is done.
    pub fn attach(&self, id: SessionId, subsystem: Subsystem) -> (r: Result<FacadeHandle, SessionError>)
        ensures
            match r {
                Ok(h) => self.is_open(id) && h == (FacadeHandle { session: id, subsystem }),
                Err(e) => !self.is_open(id) && self.admission(id) == Err::<(), SessionError>(e),
            },
    {
        match self.check_open(id) {
            Ok(()) => Ok(FacadeHandle { session: id, subsystem }),
            Err(e) => Err(e),
        }
    }

    /// Check run before every operation of a facade: it passes only while the
    /// facade's session is open.
    pub fn check_facade(&self, facade: &FacadeHandle) -> (r: Result<(), SessionError>)
        ensures
            r == self.admission(facade.session),
    {
        self.check_open(facade.session)
    }
}

/// Once a session is closed, it stays closed in every later state of the
/// registry, so every facade derived from it fails with `ConnectionClosed`.
pub proof fn lemma_closed_session_stays_closed(
    at_close: SessionRegistry,
    later: SessionRegistry,
    facade: FacadeHandle,
)
    requires
        facade.session.index < at_close.states().len(),
        !at_close.is_open(facade.session),
        later.follows(&at_close),
    ensures
        !later.is_open(facade.session),
        later.admission(facade.session) == Err::<(), SessionError>(SessionError::ConnectionClosed),
{
    assert(!later.states()[facade.session.index as int]);
}

/// Later states of later states are later states.
pub proof fn lemma_follows_transitive(a: SessionRegistry, b: SessionRegistry, c: SessionRegistry)
    requires
        b.follows(&a),
        c.follows(&b),
    ensures
        c.follows(&a),
{
    assert forall|i: int| 0 <= i < a.states().len() && !a.states()[i] implies !#[trigger] c.states()[i] by {
        assert(!b.states()[i]);
    }
}

} // verus!
