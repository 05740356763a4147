//! The table of sessions and the handles that denote them.
//!
//! A handle is a small copyable token: the number of a slot of the table.
//! A slot is used once and never again, so a handle whose session is gone
//! can never come to denote another session.

use crate::lifecycle::{units_after, LifeOp};
use crate::session::{BlockingSession, SessionError};
use crate::work::{markers_for, Marker};
use vstd::prelude::*;

verus! {

/// An opaque reference to a session. It holds nothing that a caller could
/// misuse, and may be copied to any thread.
#[derive(Clone, Copy, Debug, PartialEq, Eq, Structural)]
pub struct SessionHandle {
    slot: usize,
}

impl SessionHandle {
    /// The number of the slot that the handle denotes.
    pub closed spec fn slot(self) -> int {
        self.slot as int
    }
}

/// The sessions that have been created, each with the number of ownership
/// units outstanding on it.
pub struct SessionTable {
    sessions: Vec<Option<BlockingSession>>,
    counts: Vec<usize>,
}

impl SessionTable {
    /// The ownership units outstanding on each slot, in the order of
    /// creation; 0 where the session has been torn down.
    pub closed spec fn units(&self) -> Seq<nat> {
        Seq::new(self.counts@.len(), |i: int| self.counts@[i] as nat)
    }

    /// A session is held in a slot exactly while units are outstanding on it.
    pub closed spec fn wf(&self) -> bool {
        &&& self.sessions@.len() == self.counts@.len()
        &&& forall|i: int|
            0 <= i < self.counts@.len() ==> (#[trigger] self.sessions@[i].is_some() <==> self.counts@[i]
                > 0)
    }

    /// The session held in the slot of `handle`, where there is one.
    pub closed spec fn held(&self, handle: SessionHandle) -> Option<BlockingSession> {
        if 0 <= handle.slot() < self.sessions@.len() {
            self.sessions@[handle.slot()]
        } else {
            None
        }
    }

    /// `handle` denotes a session that has not been torn down.
    pub open spec fn live(&self, handle: SessionHandle) -> bool {
        0 <= handle.slot() < self.units().len() && self.units()[handle.slot()] > 0
    }

    /// `handle` denotes the session that the next creation will make.
    pub open spec fn next(&self, handle: SessionHandle) -> bool {
        handle.slot() == self.units().len()
    }

    /// An empty table.
    pub fn new() -> (table: SessionTable)
        ensures
            table.wf(),
            table.units() == Seq::<nat>::empty(),
    {
        let table = SessionTable { sessions: Vec::new(), counts: Vec::new() };
        assert(table.units() =~= Seq::<nat>::empty());
        table
    }

    /// Whether `handle` denotes a session that has not been torn down.
    pub fn is_live(&self, handle: SessionHandle) -> (live: bool)
        requires
            self.wf(),
        ensures
            live == self.live(handle),
    {
        handle.slot < self.counts.len() && self.counts[handle.slot] > 0
    }

    /// The ownership units outstanding on the session of `handle`; 0 where
    /// the table never held such a session.
    pub fn units_of(&self, handle: SessionHandle) -> (units: usize)
        requires
            self.wf(),
        ensures
            units == if 0 <= handle.slot() < self.units().len() {
                self.units()[handle.slot()]
            } else {
                0
            },
    {
        if handle.slot < self.counts.len() {
            self.counts[handle.slot]
        } else {
            0
        }
    }

    /// Takes `session` into a new slot, with one ownership unit.
    pub fn adopt(&mut self, session: BlockingSession) -> (handle: SessionHandle)
        requires
            old(self).wf(),
        ensures
            final(self).wf(),
            old(self).next(handle),
            final(self).units() == old(self).units().push(1),
    {
        let slot = self.counts.len();
        self.sessions.push(Some(session));
        self.counts.push(1);
        assert(self.units() =~= old(self).units().push(1));
        SessionHandle { slot }
    }

    /// The session that `handle` denotes: the one held in its slot. The
    /// borrow ends before the table can be changed, so the session cannot
    /// be torn down while it is in use.
    pub fn session(&self, handle: SessionHandle) -> (session: &BlockingSession)
        requires
            self.wf(),
            self.live(handle),
        ensures
            self.held(handle) == Some(*session),
    {
        self.sessions[handle.slot].as_ref().unwrap()
    }
}

/// Creates a session and returns the handle that denotes it, with one
/// ownership unit. Where the operating system refuses a driver of the
/// executor, the table is left as it was and the error says so. Where a
/// worker thread cannot be started, or the variable
/// `TOKIO_WORKER_THREADS` holds no positive number, the executor's
/// builder does not return: it ends the process with a panic.
pub fn nux_session_create(table: &mut SessionTable) -> (created: Result<
    SessionHandle,
    SessionError,
>)
    requires
        old(table).wf(),
    ensures
        final(table).wf(),
        match created {
            Ok(handle) => old(table).next(handle) && final(table).units() == old(
                table,
            ).units().push(1),
            Err(e) => e == SessionError::ExecutorUnavailable && final(table).units() == old(
                table,
            ).units(),
        },
{
    match BlockingSession::new() {
        Ok(session) => Ok(table.adopt(session)),
        Err(e) => Err(e),
    }
}

/// Hands out one more ownership unit on the session of `handle`. The
/// session itself is not touched. It fails, and changes nothing, only
/// where the units can no longer be counted.
pub fn nux_session_clone(table: &mut SessionTable, handle: SessionHandle) -> (cloned: Result<
    SessionHandle,
    SessionError,
>)
    requires
        old(table).wf(),
        old(table).live(handle),
    ensures
        final(table).wf(),
        cloned.is_ok() <==> old(table).units()[handle.slot()] < usize::MAX,
        match cloned {
            Ok(copy) => copy == handle && final(table).units() == old(table).units().update(
                handle.slot(),
                units_after(old(table).units()[handle.slot()], LifeOp::Clone),
            ),
            Err(e) => e == SessionError::TooManyUnits && final(table).units() == old(
                table,
            ).units(),
        },
{
    let held = table.counts[handle.slot];
    if held == usize::MAX {
        return Err(SessionError::TooManyUnits);
    }
    table.counts.set(handle.slot, held + 1);
    assert(table.units() =~= old(table).units().update(
        handle.slot(),
        units_after(old(table).units()[handle.slot()], LifeOp::Clone),
    ));
    Ok(handle)
}

/// Performs one unit of work on the session of `handle` and returns when
/// it is complete, with the start and the completion marker collected in
/// the order of its steps. The table is only read: calls from several
/// threads need no lock among them.
///
/// The caller must not itself be driving an executor: on such a thread
/// the wait panics.
pub fn nux_session_run(table: &SessionTable, handle: SessionHandle, id: usize, msecs: u64) -> (log:
    Vec<Marker>)
    requires
        table.wf(),
        table.live(handle),
    ensures
        log@ == markers_for(id),
{
    table.session(handle).run(id, msecs)
}

/// Releases one ownership unit of the session of `handle`. The session,
/// and its executor with it, is torn down exactly where that unit was the
/// last one; the result says whether it was.
pub fn nux_session_destroy(table: &mut SessionTable, handle: SessionHandle) -> (torn_down: bool)
    requires
        old(table).wf(),
        old(table).live(handle),
    ensures
        final(table).wf(),
        final(table).units() == old(table).units().update(
            handle.slot(),
            units_after(old(table).units()[handle.slot()], LifeOp::Destroy),
        ),
        torn_down == (old(table).units()[handle.slot()] == 1),
        torn_down == !final(table).live(handle),
{
    let held = table.counts[handle.slot];
    table.counts.set(handle.slot, held - 1);
    if held == 1 {
        table.sessions.set(handle.slot, None);
    }
    assert(table.units() =~= old(table).units().update(
        handle.slot(),
        units_after(old(table).units()[handle.slot()], LifeOp::Destroy),
    ));
    held == 1
}

} // verus!
