use vstd::prelude::*;

use crate::instance::Instance;
use crate::paused::PausedState;
use crate::registry::PauseEntry;
use crate::store::Store;

verus! {

/// A single-use capability over one suspension: the snapshot, plus the
/// identity of the owning context and the token of the registry entry the
/// handle was drawn from.
///
/// A handle is lent out, not a second owner: the registry entry it was
/// minted from stays live until a successful resume consumes it (or an
/// explicit clear discards it), and after that every handle minted for the
/// same suspension is permanently invalid.  A handle may also be built
/// directly from an arbitrary snapshot, bypassing the registry, for
/// negative testing of the resume engine; inspection accepts such a handle,
/// resume rejects it.
///
/// The recorded context identity is engine-scoped: it tells apart the
/// stores of one engine, which is where handles are meant to travel.
pub struct ExecutionHandle {
    pub state: PausedState,
    pub store_id: u64,
    pub token: u64,
}

/// The handle `h` is a faithful capability over the live entry `e` of the
/// context identified by `store_id`.
pub open spec fn minted_from(h: ExecutionHandle, e: PauseEntry, store_id: u64) -> bool {
    &&& h.token == e.token
    &&& h.store_id == store_id
    &&& h.state.resume_address == e.state.resume_address
    &&& h.state.frame_base == e.state.frame_base
    &&& h.state.remaining_budget == e.state.remaining_budget
    &&& h.state.call_stack@ == e.state.call_stack@
}

impl ExecutionHandle {
    /// The handle is the capability over the suspension currently recorded
    /// in the given context — an identity check against the live registry
    /// entry, not a value comparison, so stale and forged snapshots are
    /// rejected.
    pub open spec fn is_live_in(self, s: Store) -> bool {
        match s.registry.entry {
            Some(e) => e.token == self.token,
            None => false,
        }
    }

    /// A handle may resume iff its snapshot is addressable and it is still
    /// the one recorded as live in the given context.
    pub open spec fn can_resume_spec(self, s: Store) -> bool {
        &&& self.state.is_addressable()
        &&& self.store_id == s.id
        &&& self.is_live_in(s)
    }

    /// Read-only access to the wrapped snapshot.
    pub fn paused_state(&self) -> (r: &PausedState)
        ensures
            *r == self.state,
    {
        &self.state
    }

    /// Whether `resume` against the given context would be accepted.
    pub fn can_resume(&self, store: &Store) -> (r: bool)
        ensures
            r == self.can_resume_spec(*store),
    {
        let addressable = self.state.resume_address != 0 || self.state.frame_base != 0;
        let live = match &store.registry.entry {
            Some(e) => e.token == self.token,
            None => false,
        };
        addressable && self.store_id == store.id && live
    }

    /// Builds a handle directly from an arbitrary snapshot, bypassing the
    /// registry.  The result is never the live capability of any context:
    /// minted tokens start at 1, so resume always rejects it.
    pub fn from_paused_state(state: PausedState) -> (r: ExecutionHandle)
        ensures
            r.state == state,
            r.store_id == 0,
            r.token == 0,
    {
        ExecutionHandle { state, store_id: 0, token: 0 }
    }
}

impl Store {
    /// Mints a context-scoped capability over the live suspension, if any.
    /// The registry entry itself stays live until the capability is
    /// consumed by a successful resume.
    pub fn capture_execution_handle(&self) -> (r: Option<ExecutionHandle>)
        ensures
            r is Some <==> self.is_paused_spec(),
            r is Some ==> minted_from(r->Some_0, self.registry.entry->Some_0, self.id),
    {
        match self.registry.take() {
            Some(e) => Some(
                ExecutionHandle { state: e.state.duplicate(), store_id: self.id, token: e.token },
            ),
            None => None,
        }
    }
}

/// An instance-scoped capability lookup will succeed: the context is
/// paused and the live suspension was produced by a call of this very
/// instance.
pub open spec fn handle_available_for(s: Store, inst: Instance) -> bool {
    s.is_paused_spec() && s.registry.entry->Some_0.instance_id == inst.id
}

impl Instance {
    /// Mints an instance-scoped capability: present only when the live
    /// suspension was produced by a call of this very instance, absent for
    /// every other instance even though the context is paused.
    pub fn get_execution_handle(&self, store: &Store) -> (r: Option<ExecutionHandle>)
        ensures
            r is Some <==> handle_available_for(*store, *self),
            r is Some ==> minted_from(r->Some_0, store.registry.entry->Some_0, store.id),
    {
        match store.registry.take_for(self.id) {
            Some(e) => Some(
                ExecutionHandle { state: e.state.duplicate(), store_id: store.id, token: e.token },
            ),
            None => None,
        }
    }
}

} // verus!
