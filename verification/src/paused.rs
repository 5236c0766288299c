use vstd::prelude::*;

use crate::program::opt_name_view;

verus! {

/// One diagnostic call-stack entry: an optional symbolic function name and
/// an in-function offset.  Informational only — the resume protocol never
/// consults it.
pub struct FrameEntry {
    pub name: Option<String>,
    pub offset: u64,
}

/// The mathematical model of a diagnostic call-stack entry.
pub struct FrameEntryModel {
    pub name: Option<Seq<char>>,
    pub offset: u64,
}

impl View for FrameEntry {
    type V = FrameEntryModel;

    open spec fn view(&self) -> FrameEntryModel {
        FrameEntryModel { name: opt_name_view(self.name), offset: self.offset }
    }
}

/// An immutable snapshot of a suspended execution, created once per
/// suspension.
///
/// `resume_address` and `frame_base` are opaque machine addresses; the value
/// `0` is reserved as "invalid / uninitialized" for both.  The snapshot
/// capturer never produces a state with both addresses zero; such a state
/// can only be injected deliberately (for negative testing of the resume
/// engine) and resume must reject it.
pub struct PausedState {
    /// Where execution must continue: logically the instruction after the
    /// suspending host call.  Never `0` when produced by capture.
    pub resume_address: u64,
    /// The activation to restore.  Never `0` when produced by capture.
    pub frame_base: u64,
    /// Metering budget sampled (without mutation) at suspension time;
    /// absent when metering is disabled.
    pub remaining_budget: Option<u64>,
    /// Diagnostic call stack, innermost activation first.
    pub call_stack: Vec<FrameEntry>,
}

/// The mathematical model of a snapshot.
pub struct PausedStateModel {
    pub resume_address: u64,
    pub frame_base: u64,
    pub remaining_budget: Option<u64>,
    pub call_stack: Seq<FrameEntryModel>,
}

impl View for PausedState {
    type V = PausedStateModel;

    open spec fn view(&self) -> PausedStateModel {
        PausedStateModel {
            resume_address: self.resume_address,
            frame_base: self.frame_base,
            remaining_budget: self.remaining_budget,
            call_stack: self.call_stack@.map_values(|e: FrameEntry| e@),
        }
    }
}

impl PausedState {
    /// A snapshot is addressable iff at least one of its two addresses is
    /// non-zero; the all-zero state is the reserved invalid value.
    pub open spec fn is_addressable(self) -> bool {
        self.resume_address != 0 || self.frame_base != 0
    }

    /// Builds the reserved invalid snapshot, as a misuse or negative-testing
    /// path would.
    pub fn invalid() -> (r: PausedState)
        ensures
            r.resume_address == 0,
            r.frame_base == 0,
            r.remaining_budget is None,
            r.call_stack@.len() == 0,
            !r.is_addressable(),
    {
        PausedState { resume_address: 0, frame_base: 0, remaining_budget: None, call_stack: Vec::new() }
    }

    /// Copies a snapshot.  Snapshots are immutable values; a handle carries
    /// its own copy while the registry keeps the authoritative one.
    pub fn duplicate(&self) -> (r: PausedState)
        ensures
            r.resume_address == self.resume_address,
            r.frame_base == self.frame_base,
            r.remaining_budget == self.remaining_budget,
            r.call_stack@ == self.call_stack@,
    {
        let mut entries: Vec<FrameEntry> = Vec::new();
        let mut i: usize = 0;
        while i < self.call_stack.len()
            invariant
                i <= self.call_stack.len(),
                entries@ == self.call_stack@.take(i as int),
            decreases self.call_stack.len() - i,
        {
            let e = &self.call_stack[i];
            entries.push(FrameEntry { name: crate::program::dup_name(&e.name), offset: e.offset });
            proof {
                assert(entries@ == self.call_stack@.take(i as int).push(self.call_stack@[i as int]));
                assert(self.call_stack@.take(i + 1) == self.call_stack@.take(i as int).push(
                    self.call_stack@[i as int],
                ));
            }
            i = i + 1;
        }
        proof {
            assert(self.call_stack@.take(self.call_stack@.len() as int) == self.call_stack@);
        }
        PausedState {
            resume_address: self.resume_address,
            frame_base: self.frame_base,
            remaining_budget: self.remaining_budget,
            call_stack: entries,
        }
    }
}

} // verus!
