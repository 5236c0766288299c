use vstd::prelude::*;

use crate::frame::Frame;
use crate::paused::PausedState;

verus! {

/// The live suspension owned by an execution context: the snapshot, the
/// identity of the instance whose call produced it, the token that makes
/// handles drawn from it recognizable, and the captured activation chain
/// (outermost first), which is the part of the context's memory the
/// snapshot's addresses point into.
pub struct PauseEntry {
    pub state: PausedState,
    pub instance_id: usize,
    pub token: u64,
    pub frames: Vec<Frame>,
}

/// The pause registry: exclusively owned by the top-level execution context,
/// holding at most one live suspension at a time.  It is the single source
/// of truth for "is something paused".
///
/// An entry is created when a suspend request completes inside a running
/// call, and destroyed on successful resume (removed before control
/// transfer) or on explicit clear.  Handles minted from the entry do not
/// remove it.
pub struct PauseRegistry {
    pub entry: Option<PauseEntry>,
}

impl PauseRegistry {
    /// A registry with no live suspension.
    pub fn empty() -> (r: PauseRegistry)
        ensures
            r.entry is None,
    {
        PauseRegistry { entry: None }
    }

    /// True iff an entry is present.
    pub fn is_paused(&self) -> (r: bool)
        ensures
            r == (self.entry is Some),
    {
        self.entry.is_some()
    }

    /// Stores a fresh suspension.  An entry being already present would be a
    /// correctness violation, so it is ruled out up front.
    pub fn record(&mut self, e: PauseEntry)
        requires
            old(self).entry is None,
        ensures
            final(self).entry == Some(e),
    {
        self.entry = Some(e);
    }

    /// Read-only inspection of the stored snapshot, without consuming it.
    pub fn peek(&self) -> (r: Option<&PausedState>)
        ensures
            r is Some <==> self.entry is Some,
            r is Some ==> *r->Some_0 == self.entry->Some_0.state,
    {
        match &self.entry {
            Some(e) => Some(&e.state),
            None => None,
        }
    }

    /// The unconditional capability view of the entry, for the top-level
    /// context itself; handles are minted from it.  The entry stays live:
    /// it is destroyed only by a successful resume or an explicit clear.
    pub fn take(&self) -> (r: Option<&PauseEntry>)
        ensures
            r is Some <==> self.entry is Some,
            r is Some ==> *r->Some_0 == self.entry->Some_0,
    {
        match &self.entry {
            Some(e) => Some(e),
            None => None,
        }
    }

    /// The instance-scoped capability view of the entry: present only for
    /// the instance whose call produced the suspension, absent for every
    /// other instance even though the registry is non-empty.
    pub fn take_for(&self, instance_id: usize) -> (r: Option<&PauseEntry>)
        ensures
            r is Some <==> (self.entry is Some && self.entry->Some_0.instance_id == instance_id),
            r is Some ==> *r->Some_0 == self.entry->Some_0,
    {
        match &self.entry {
            Some(e) => {
                if e.instance_id == instance_id {
                    Some(e)
                } else {
                    None
                }
            },
            None => None,
        }
    }

    /// Removes and returns the entry; used by the resume engine, which must
    /// consume the entry before any control transfer begins.
    pub fn withdraw(&mut self) -> (r: Option<PauseEntry>)
        ensures
            final(self).entry is None,
            r == old(self).entry,
    {
        self.entry.take()
    }

    /// Removes the entry without resuming, discarding the capability and its
    /// captured activation chain permanently.
    pub fn clear(&mut self)
        ensures
            final(self).entry is None,
    {
        self.entry = None;
    }
}

} // verus!
