use vstd::prelude::*;

use crate::engine::store_shape_kept;
use crate::frame::FrameModel;
use crate::handle::ExecutionHandle;
use crate::instance::Instance;
use crate::machine::plain_step;
use crate::program::Instr;
use crate::store::Store;
use crate::value::Val;

verus! {

/// Instance scoping: while the live suspension was produced by a call of
/// instance `a`, the instance-scoped capability lookup succeeds for `a` and
/// reports absent for every other instance `b` sharing the same context.
pub proof fn lemma_instance_scoped_capability(s: Store, a: Instance, b: Instance)
    requires
        s.is_paused_spec(),
        s.registry.entry->Some_0.instance_id == a.id,
        b.id != a.id,
    ensures
        crate::handle::handle_available_for(s, a),
        !crate::handle::handle_available_for(s, b),
{
}

/// Single use: a handle can resume only while the suspension it was minted
/// for is still the live registry entry.  Once that entry is gone — after a
/// successful resume consumed it, or after an explicit clear discarded it —
/// the handle is permanently invalid.
pub proof fn lemma_consumed_handle_cannot_resume(s: Store, h: ExecutionHandle)
    requires
        match s.registry.entry {
            Some(e) => e.token != h.token,
            None => true,
        },
    ensures
        !h.can_resume_spec(s),
{
}

/// Single use across re-suspension: suspension tokens grow strictly, so
/// even when a resumed continuation paused again and the registry is
/// non-empty once more, every handle minted for the consumed suspension —
/// not only the one that was resumed — still reports that it cannot resume.
pub proof fn lemma_resume_invalidates_prior_handles(pre: Store, post: Store, h: ExecutionHandle)
    requires
        pre.wf(),
        h.is_live_in(pre),
        match post.registry.entry {
            Some(e2) => e2.token >= pre.token_counter,
            None => true,
        },
    ensures
        !h.can_resume_spec(post),
{
}

/// Invalid-state rejection: a handle carrying the reserved all-zero
/// snapshot can never resume, in any context whatsoever.
pub proof fn lemma_invalid_state_never_resumes(s: Store, h: ExecutionHandle)
    requires
        h.state.resume_address == 0,
        h.state.frame_base == 0,
    ensures
        !h.can_resume_spec(s),
{
}

/// Metering monotonicity: engine runs compose — across any sequence of
/// calls and resumes the remaining budget never grows, and when metering is
/// off it never moves.  Capture and resume themselves draw nothing: only
/// executed instructions do.
pub proof fn lemma_metering_monotone(pre: Store, mid: Store, post: Store, i1: int, i2: int)
    requires
        store_shape_kept(pre, mid, i1),
        store_shape_kept(mid, post, i2),
    ensures
        post.fuel <= pre.fuel,
        !pre.fuel_enabled ==> post.fuel == pre.fuel,
{
}

/// Exactly-once execution, at the single-step level: every successful
/// straight-line step leaves the activation in the same function with the
/// program counter advanced by exactly one.  Instructions already passed
/// are never revisited, and a resumed continuation starts at the resume
/// address — one past the suspending call — so no instruction before it can
/// run a second time.
pub proof fn lemma_plain_step_advances(f: FrameModel, g: Seq<Val>, instr: Instr)
    requires
        plain_step(f, g, instr) is Ok,
    ensures
        plain_step(f, g, instr)->Ok_0.0.pc == f.pc + 1,
        plain_step(f, g, instr)->Ok_0.0.func == f.func,
        plain_step(f, g, instr)->Ok_0.0.locals.len() == f.locals.len(),
{
}

} // verus!
