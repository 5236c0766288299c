use vstd::prelude::*;

use crate::errors::Trap;
use crate::frame::{Frame, FrameModel};
use crate::paused::{FrameEntry, PausedState};
use crate::program::{opt_name_view, HostImport, Module};
use crate::registry::PauseEntry;
use crate::store::Store;
use crate::value::Val;

verus! {

/// The deepest supported guest call chain.  One more `Call` traps with
/// `StackOverflow` instead of exhausting native stack space.
pub const MAX_CALL_DEPTH: usize = 1000;

/// The capability handed to a host function for the duration of one host
/// call.  It is the only way to reach the execution-context accessor: the
/// host may request that the in-flight call be suspended, and may sample
/// the metering budget, but cannot touch guest state.
pub struct Caller {
    /// Whether the owning context captures suspensions (the opt-in toggle).
    pub capture_enabled: bool,
    /// Set when the host requested suspension of the current call chain.
    /// `pause_execution` sets it only in capture mode; a host that writes
    /// the field directly makes the same request, and the engine honours
    /// the flag either way only when the owning context has capture
    /// enabled — otherwise it is ignored.
    pub suspend_requested: bool,
    /// Whether the owning context meters execution.
    pub fuel_enabled: bool,
    /// The remaining metering budget at the time of the host call.
    pub fuel: u64,
}

impl Caller {
    /// Requests that the currently active call chain unwind to a suspended
    /// state rather than a normal return.
    ///
    /// In capture mode the request is recorded and the call returns `Ok`,
    /// so the host function can finish normally while the engine suspends
    /// afterwards; the top-level call still unwinds with the distinguished
    /// "paused" error.  Outside capture mode suspension degrades to an
    /// ordinary non-resumable abort: the paused error is returned here for
    /// the host to propagate, and nothing is captured.
    pub fn pause_execution(&mut self) -> (r: Result<(), Trap>)
        ensures
            old(self).capture_enabled ==> (r is Ok && *final(self) == (Caller {
                suspend_requested: true,
                ..*old(self)
            })),
            !old(self).capture_enabled ==> (r == Err::<(), Trap>(Trap::SuspendedSignal)
                && *final(self) == *old(self)),
    {
        if self.capture_enabled {
            self.suspend_requested = true;
            Ok(())
        } else {
            Err(Trap::SuspendedSignal)
        }
    }

    /// Samples the remaining metering budget without mutating it.
    pub fn get_fuel(&self) -> (r: Result<u64, Trap>)
        ensures
            self.fuel_enabled ==> r == Ok::<u64, Trap>(self.fuel),
            !self.fuel_enabled ==> (r matches Err(t) && t is FuelNotEnabled),
    {
        if self.fuel_enabled {
            Ok(self.fuel)
        } else {
            Err(Trap::FuelNotEnabled)
        }
    }
}

/// A host-function table, supplied by the embedder.  Guest `CallHost`
/// instructions are dispatched through it; the host's behaviour is its own,
/// so nothing is assumed about the returned values beyond what the engine
/// checks at the boundary.
pub trait HostHandler {
    /// Performs the host call for import `import` with arguments `args`.
    /// Through `caller` the host may request suspension of the in-flight
    /// call.  An `Err` propagates to the top-level call unchanged.
    fn host_call(&mut self, caller: &mut Caller, import: usize, args: &Vec<Val>) -> Result<
        Vec<Val>,
        Trap,
    >;
}

/// Every frame of a chain addresses a real function body of the module,
/// with its program counter inside (or one past) that body.
pub open spec fn frames_ok(m: Module, frames: Seq<Frame>) -> bool {
    forall|j: int|
        0 <= j < frames.len() ==> (#[trigger] frames[j]).func < m.funcs@.len() && frames[j].pc
            <= m.funcs@[frames[j].func as int].code@.len()
}

/// The frame sits immediately after a host call whose arguments are still
/// materialized on its operand stack — the shape every suspended innermost
/// frame has.
pub open spec fn pending_call_ok(m: Module, f: Frame) -> bool {
    &&& f.func < m.funcs@.len()
    &&& 1 <= f.pc <= m.funcs@[f.func as int].code@.len()
    &&& m.funcs@[f.func as int].code@[f.pc - 1] is CallHost
    &&& {
        let ii = m.funcs@[f.func as int].code@[f.pc - 1]->CallHost_0;
        &&& ii < m.imports@.len()
        &&& f.stack@.len() >= m.imports@[ii as int].n_params
    }
}

/// What any run of the engine preserves of the context: identity,
/// configuration, every other instance, and this instance's code; the
/// metering budget never grows, and when metering is off it does not move
/// at all.
pub open spec fn store_shape_kept(pre: Store, post: Store, iidx: int) -> bool {
    &&& post.id == pre.id
    &&& post.fuel_enabled == pre.fuel_enabled
    &&& post.capture_enabled == pre.capture_enabled
    &&& post.backtrace_enabled == pre.backtrace_enabled
    &&& post.fuel <= pre.fuel
    &&& (!pre.fuel_enabled ==> post.fuel == pre.fuel)
    &&& post.token_counter >= pre.token_counter
    &&& post.instances@.len() == pre.instances@.len()
    &&& (forall|j: int|
        0 <= j < pre.instances@.len() && j != iidx ==> post.instances@[j] == pre.instances@[j])
    &&& (0 <= iidx < pre.instances@.len() ==> post.instances@[iidx].module
        == pre.instances@[iidx].module)
}

/// Builds the snapshot for a suspension that has just been accepted and
/// stores it in the registry, scoped to the producing instance.
///
/// The captured activation chain is stored exactly as the compiled code
/// left it — no guest-visible state is copied or altered; the snapshot
/// itself holds only addresses and sampled scalars: the resume address (the
/// instruction after the suspending host call), the frame base token, the
/// metering budget sampled without mutation, and, when backtraces are on,
/// the diagnostic call stack listed innermost activation first.
pub(crate) fn record_suspension(store: &mut Store, instance_id: usize, chain: Vec<Frame>)
    requires
        old(store).wf(),
        old(store).registry.entry is None,
        old(store).token_counter < u64::MAX,
        1 <= instance_id <= old(store).instances@.len(),
        1 <= chain@.len() <= MAX_CALL_DEPTH,
        frames_ok(old(store).instances@[instance_id - 1].module, chain@),
        pending_call_ok(old(store).instances@[instance_id - 1].module, chain@.last()),
    ensures
        final(store).wf(),
        *final(store) == (Store {
            token_counter: (old(store).token_counter + 1) as u64,
            registry: final(store).registry,
            ..*old(store)
        }),
        final(store).registry.entry is Some,
        ({
            let e = final(store).registry.entry->Some_0;
            let m = old(store).instances@[instance_id - 1].module;
            &&& e.instance_id == instance_id
            &&& e.token == old(store).token_counter
            &&& e.frames@ == chain@
            &&& e.state.resume_address == chain@.last().pc as u64
            &&& e.state.frame_base == old(store).token_counter
            &&& e.state.remaining_budget == (if old(store).fuel_enabled {
                Some(old(store).fuel)
            } else {
                None::<u64>
            })
            &&& (old(store).backtrace_enabled ==> e.state.call_stack@.len() == chain@.len()
                && (forall|k: int|
                    0 <= k < chain@.len() ==> (#[trigger] e.state.call_stack@[k]).offset
                        == chain@[chain@.len() - 1 - k].pc as u64 && opt_name_view(
                        e.state.call_stack@[k].name,
                    ) == opt_name_view(m.funcs@[chain@[chain@.len() - 1 - k].func as int].name)))
            &&& (!old(store).backtrace_enabled ==> e.state.call_stack@.len() == 0)
        }),
{
    let iidx = instance_id - 1;
    let mut entries: Vec<FrameEntry> = Vec::new();
    if store.backtrace_enabled {
        let n = chain.len();
        let mut k: usize = 0;
        while k < n
            invariant
                n == chain@.len(),
                k <= n,
                iidx == instance_id - 1,
                instance_id >= 1,
                iidx < store.instances@.len(),
                frames_ok(store.instances@[iidx as int].module, chain@),
                entries@.len() == k,
                forall|t: int|
                    0 <= t < k ==> (#[trigger] entries@[t]).offset == chain@[n - 1 - t].pc as u64
                        && opt_name_view(entries@[t].name) == opt_name_view(
                        store.instances@[iidx as int].module.funcs@[chain@[n - 1 - t].func as int].name,
                    ),
            decreases n - k,
        {
            let fidx = n - 1 - k;
            let f = &chain[fidx];
            let name = store.func_name_dup(iidx, f.func);
            entries.push(FrameEntry { name, offset: f.pc as u64 });
            k = k + 1;
        }
    }
    let token = store.token_counter;
    store.token_counter = store.token_counter + 1;
    let resume_address = chain[chain.len() - 1].pc as u64;
    let remaining_budget = store.sample_remaining();
    let state = PausedState { resume_address, frame_base: token, remaining_budget, call_stack: entries };
    store.registry.record(PauseEntry { state, instance_id, token, frames: chain });
}

/// What one activation's run produced: normal completion with its result
/// values, a suspension carrying the activation chain captured so far
/// (outermost first), or a trap.
pub(crate) enum RunOutcome {
    Done(Vec<Val>),
    Suspended(Vec<Frame>),
    Trapped(Trap),
}

/// Assembles exactly what one host call is handed, pinning the boundary
/// between the engine and the embedder: the import index read from the
/// call instruction itself, that import's shape, the top `n_params`
/// operands in stack order (read in place — they stay materialized on the
/// frame), and a fresh `Caller` that mirrors the context's capture and
/// metering state with no suspension requested.  Rejected with
/// `InvalidProgram` exactly when the call names an unknown import or the
/// operand stack holds fewer values than its parameters.
#[verifier::loop_isolation(false)]
fn host_call_inputs(store: &Store, iidx: usize, cur: &Frame) -> (r: Result<
    (usize, HostImport, Vec<Val>, Caller),
    Trap,
>)
    requires
        iidx < store.instances@.len(),
        cur.func < store.instances@[iidx as int].module.funcs@.len(),
        cur.pc < store.instances@[iidx as int].module.funcs@[cur.func as int].code@.len(),
        store.instances@[iidx as int].module.funcs@[cur.func as int].code@[cur.pc as int]
            is CallHost,
    ensures
        ({
            let m = store.instances@[iidx as int].module;
            let ii = m.funcs@[cur.func as int].code@[cur.pc as int]->CallHost_0;
            &&& (r is Ok <==> (ii < m.imports@.len() && cur.stack@.len() >= m.imports@[
                ii as int
            ].n_params))
            &&& match r {
                Ok(out) => {
                    &&& out.0 == ii
                    &&& out.1 == m.imports@[ii as int]
                    &&& out.2@ == cur.stack@.subrange(
                        cur.stack@.len() - out.1.n_params,
                        cur.stack@.len() as int,
                    )
                    &&& out.3 == (Caller {
                        capture_enabled: store.capture_enabled,
                        suspend_requested: false,
                        fuel_enabled: store.fuel_enabled,
                        fuel: store.fuel,
                    })
                },
                Err(t) => t is InvalidProgram,
            }
        }),
{
    let ii = match store.get_instr(iidx, cur.func, cur.pc) {
        crate::program::Instr::CallHost(i) => i,
        _ => unreached(),
    };
    if ii >= store.import_count(iidx) {
        return Err(Trap::InvalidProgram);
    }
    let imp = store.import_at(iidx, ii);
    if cur.stack.len() < imp.n_params {
        return Err(Trap::InvalidProgram);
    }
    let base = cur.stack.len() - imp.n_params;
    let mut args: Vec<Val> = Vec::new();
    let mut k: usize = base;
    while k < cur.stack.len()
        invariant
            base <= k <= cur.stack@.len(),
            args@ == cur.stack@.subrange(base as int, k as int),
        decreases cur.stack@.len() - k,
    {
        args.push(cur.stack[k]);
        k = k + 1;
        proof {
            assert(args@ =~= cur.stack@.subrange(base as int, k as int));
        }
    }
    let caller = Caller {
        capture_enabled: store.capture_enabled,
        suspend_requested: false,
        fuel_enabled: store.fuel_enabled,
        fuel: store.fuel,
    };
    Ok((ii, imp, args, caller))
}

/// The activation `f` is parked exactly on a host call whose continuation
/// is straight-line: the program counter names a `CallHost` instruction of
/// a known import, the call's arguments are materialized on the operand
/// stack, and no further call instruction follows.  This is the shape a
/// no-override resume re-enters.
pub open spec fn resumed_at_call(m: Module, f: crate::frame::FrameModel) -> bool {
    &&& f.func < m.funcs@.len()
    &&& {
        let code = m.funcs@[f.func as int].code@;
        &&& f.pc < code.len()
        &&& code[f.pc as int] is CallHost
        &&& crate::machine::no_calls_from(code, f.pc + 1 as int)
        &&& code[f.pc as int]->CallHost_0 < m.imports@.len()
        &&& f.stack.len() >= m.imports@[code[f.pc as int]->CallHost_0 as int].n_params
    }
}

/// Exactly-once capture: starting an activation at `f0`, the captured chain
/// is one frame whose state is precisely what the reference interpreter
/// computes by running the body's deterministic prefix up to its host call
/// — same locals, same operand stack, same globals — with the program
/// counter one past the call and one unit of budget drawn for the call
/// instruction itself.  Nothing before the call ran twice or was skipped.
pub open spec fn capture_exact(
    pre: Store,
    post: Store,
    iidx: int,
    f0: crate::frame::FrameModel,
    chain: Seq<Frame>,
) -> bool {
    let m = pre.instances@[iidx].module;
    let spec_r = crate::machine::run_to_call_spec(
        m,
        f0,
        pre.instances@[iidx].globals@,
        pre.fuel_enabled,
        pre.fuel as nat,
    );
    &&& chain.len() == 1
    &&& spec_r matches Some(s)
    &&& chain[0]@ == (crate::frame::FrameModel { pc: s.0.pc + 1, ..s.0 })
    &&& post.instances@[iidx].globals@ == s.1
    &&& (pre.fuel_enabled ==> s.2 >= 1 && post.fuel as nat == s.2 - 1)
}

/// Runs one guest activation to completion, a trap, or a suspension.
///
/// Guest `Call` instructions recurse with a smaller depth budget, exactly
/// mirroring how compiled activations nest; a suspension requested in a
/// host call unwinds through every level, each contributing its frame, so
/// the entire native call chain down to the top-level entry is preserved.
/// This function never touches the pause registry: the chain is recorded by
/// the caller at the top level.
#[verifier::loop_isolation(false)]
pub(crate) fn run_frame<H: HostHandler>(
    store: &mut Store,
    handler: &mut H,
    iidx: usize,
    cur: Frame,
    depth_budget: usize,
) -> (r: RunOutcome)
    requires
        old(store).wf(),
        old(store).registry.entry is None,
        iidx < old(store).instances@.len(),
        depth_budget >= 1,
        cur.func < old(store).instances@[iidx as int].module.funcs@.len(),
        cur.pc <= old(store).instances@[iidx as int].module.funcs@[cur.func as int].code@.len(),
    ensures
        final(store).wf(),
        final(store).registry.entry is None,
        final(store).token_counter == old(store).token_counter,
        store_shape_kept(*old(store), *final(store), iidx as int),
        ({
            let m = old(store).instances@[iidx as int].module;
            match r {
                RunOutcome::Done(vals) => vals@.len() == m.funcs@[cur.func as int].n_results,
                RunOutcome::Suspended(chain) => {
                    &&& old(store).capture_enabled
                    &&& 1 <= chain@.len() <= depth_budget
                    &&& frames_ok(m, chain@)
                    &&& chain@[0].func == cur.func
                    &&& pending_call_ok(m, chain@.last())
                },
                RunOutcome::Trapped(_) => true,
            }
        }),
        ({
            let m = old(store).instances@[iidx as int].module;
            crate::machine::no_calls_from(m.funcs@[cur.func as int].code@, cur.pc as int) ==> ({
                let spec_r = crate::machine::run_plain_spec(
                    m,
                    cur@,
                    old(store).instances@[iidx as int].globals@,
                    old(store).fuel_enabled,
                    old(store).fuel as nat,
                );
                match r {
                    RunOutcome::Done(vals) => (spec_r matches Ok(o) && vals@ == o.0
                        && final(store).instances@[iidx as int].globals@ == o.1
                        && final(store).fuel as nat == o.2),
                    RunOutcome::Suspended(_) => false,
                    RunOutcome::Trapped(t) => spec_r == Err::<(Seq<Val>, Seq<Val>, nat), Trap>(t),
                }
            })
        }),
        ({
            let code = old(store).instances@[iidx as int].module.funcs@[cur.func as int].code@;
            match r {
                RunOutcome::Suspended(chain) => ((exists|cpos: int|
                    crate::machine::single_host_call(code, cpos)) && cur.pc == 0)
                    ==> capture_exact(*old(store), *final(store), iidx as int, cur@, chain@),
                _ => true,
            }
        }),
        ({
            let m = old(store).instances@[iidx as int].module;
            let code = m.funcs@[cur.func as int].code@;
            match r {
                RunOutcome::Done(vals) => ((exists|cpos: int|
                    crate::machine::single_host_call(code, cpos)) && cur.pc == 0)
                    ==> exists|vs: Seq<Val>|
                    #![auto]
                    crate::machine::call_reached(
                        m,
                        cur@,
                        old(store).instances@[iidx as int].globals@,
                        old(store).fuel_enabled,
                        old(store).fuel as nat,
                        vs,
                    ) && (crate::machine::post_call_run(
                        m,
                        cur@,
                        old(store).instances@[iidx as int].globals@,
                        old(store).fuel_enabled,
                        old(store).fuel as nat,
                        vs,
                    ) matches Ok(o) && vals@ == o.0 && final(store).instances@[
                        iidx as int
                    ].globals@ == o.1 && (old(store).fuel_enabled ==> final(store).fuel as nat
                        == o.2)),
                _ => true,
            }
        }),
        ({
            let m = old(store).instances@[iidx as int].module;
            let code = m.funcs@[cur.func as int].code@;
            let at_call_p = resumed_at_call(m, cur@);
            let imp = m.imports@[code[cur.pc as int]->CallHost_0 as int];
            let fuel_after_call = if old(store).fuel_enabled {
                (old(store).fuel - 1) as nat
            } else {
                old(store).fuel as nat
            };
            match r {
                RunOutcome::Done(vals) => at_call_p ==> (exists|vs: Seq<Val>|
                    #![auto]
                    vs.len() == imp.n_results && (old(store).fuel_enabled ==> old(store).fuel
                        >= 1) && ({
                        let f1 = (crate::frame::FrameModel {
                            pc: (cur.pc + 1) as nat,
                            stack: crate::machine::injected_stack(
                                cur@.stack,
                                imp.n_params as nat,
                                vs,
                            ),
                            ..cur@
                        });
                        crate::machine::run_plain_spec(
                            m,
                            f1,
                            old(store).instances@[iidx as int].globals@,
                            old(store).fuel_enabled,
                            fuel_after_call,
                        ) matches Ok(o) && vals@ == o.0 && final(store).instances@[
                            iidx as int
                        ].globals@ == o.1 && final(store).fuel as nat == o.2
                    })),
                RunOutcome::Suspended(chain) => at_call_p ==> (chain@.len() == 1 && chain@[0]@
                    == (crate::frame::FrameModel { pc: (cur.pc + 1) as nat, ..cur@ })
                    && final(store).instances@[iidx as int].globals@ == old(store).instances@[iidx as int].globals@
                    && (old(store).fuel_enabled ==> old(store).fuel >= 1 && final(store).fuel
                    as nat == old(store).fuel - 1)),
                RunOutcome::Trapped(_) => true,
            }
        }),
    decreases depth_budget,
{
    let ghost entry_func = cur.func;
    let ghost m0 = old(store).instances@[iidx as int].module;
    let ghost cur0 = cur@;
    let ghost g0 = old(store).instances@[iidx as int].globals@;
    let ghost fuel0 = old(store).fuel as nat;
    let ghost fe = old(store).fuel_enabled;
    let ghost at_call = resumed_at_call(m0, cur0);
    let ghost call_imp = m0.imports@[m0.funcs@[entry_func as int].code@[cur0.pc as int]->CallHost_0 as int];
    let ghost fuel1 = if fe {
        (fuel0 - 1) as nat
    } else {
        fuel0
    };
    let mut cur = cur;
    let code_len = store.code_len(iidx, cur.func);
    loop
        invariant
            store.wf(),
            store.registry.entry is None,
            store.token_counter == old(store).token_counter,
            iidx < store.instances@.len(),
            depth_budget >= 1,
            store_shape_kept(*old(store), *store, iidx as int),
            cur.func < store.instances@[iidx as int].module.funcs@.len(),
            cur.func < old(store).instances@[iidx as int].module.funcs@.len(),
            cur.func == entry_func,
            code_len == store.instances@[iidx as int].module.funcs@[cur.func as int].code@.len(),
            cur.pc <= code_len,
            cur0.pc <= cur.pc,
            crate::machine::no_calls_from(m0.funcs@[entry_func as int].code@, cur0.pc as int)
                ==> crate::machine::run_plain_spec(
                m0,
                cur@,
                store.instances@[iidx as int].globals@,
                old(store).fuel_enabled,
                store.fuel as nat,
            ) == crate::machine::run_plain_spec(m0, cur0, g0, old(store).fuel_enabled, fuel0),
            forall|cpos: int|
                #[trigger] crate::machine::single_host_call(
                    m0.funcs@[entry_func as int].code@,
                    cpos,
                ) && cur0.pc == 0 ==> (cur.pc > cpos || crate::machine::run_to_call_spec(
                    m0,
                    cur@,
                    store.instances@[iidx as int].globals@,
                    old(store).fuel_enabled,
                    store.fuel as nat,
                ) == crate::machine::run_to_call_spec(
                    m0,
                    cur0,
                    g0,
                    old(store).fuel_enabled,
                    fuel0,
                )),
            forall|cpos: int|
                #[trigger] crate::machine::single_host_call(
                    m0.funcs@[entry_func as int].code@,
                    cpos,
                ) && cur0.pc == 0 ==> (cur.pc <= cpos || (exists|vs: Seq<Val>|
                    #![auto]
                    crate::machine::call_reached(m0, cur0, g0, fe, fuel0, vs)
                        && crate::machine::run_plain_spec(
                        m0,
                        cur@,
                        store.instances@[iidx as int].globals@,
                        fe,
                        store.fuel as nat,
                    ) == crate::machine::post_call_run(m0, cur0, g0, fe, fuel0, vs))),
            at_call ==> ((cur@ == cur0 && store.instances@[iidx as int].globals@ == g0
                && store.fuel as nat == fuel0) || (cur0.pc < cur.pc && (exists|vs: Seq<Val>|
                #![auto]
                vs.len() == call_imp.n_results && (fe ==> fuel0 >= 1)
                    && crate::machine::run_plain_spec(
                    m0,
                    cur@,
                    store.instances@[iidx as int].globals@,
                    fe,
                    store.fuel as nat,
                ) == crate::machine::run_plain_spec(
                    m0,
                    (crate::frame::FrameModel {
                        pc: (cur0.pc + 1) as nat,
                        stack: crate::machine::injected_stack(
                            cur0.stack,
                            call_imp.n_params as nat,
                            vs,
                        ),
                        ..cur0
                    }),
                    g0,
                    fe,
                    fuel1,
                )))),
        decreases code_len - cur.pc,
    {
        let ghost cur_h = cur@;
        let ghost g_h = store.instances@[iidx as int].globals@;
        let ghost fuel_h = store.fuel as nat;
        if cur.pc == code_len {
            // Implicit end of the body: return this activation's results.
            let nres = store.func_n_results(iidx, cur.func);
            if cur.stack.len() < nres {
                return RunOutcome::Trapped(Trap::InvalidProgram);
            }
            let results = cur.stack.split_off(cur.stack.len() - nres);
            return RunOutcome::Done(results);
        }
        // Metering: each executed instruction draws one unit of budget.
        if store.fuel_enabled {
            if store.fuel == 0 {
                return RunOutcome::Trapped(Trap::OutOfFuel);
            }
            store.fuel = store.fuel - 1;
        }
        let instr = store.get_instr(iidx, cur.func, cur.pc);
        match instr {
            crate::program::Instr::Call(fi) => {
                if fi >= store.func_count(iidx) {
                    return RunOutcome::Trapped(Trap::InvalidProgram);
                }
                let np = store.func_n_params(iidx, fi);
                if cur.stack.len() < np {
                    return RunOutcome::Trapped(Trap::InvalidProgram);
                }
                if depth_budget <= 1 {
                    return RunOutcome::Trapped(Trap::StackOverflow);
                }
                // The top `np` operands become the callee's parameters;
                // declared locals are zero-initialized.
                let mut locals = cur.stack.split_off(cur.stack.len() - np);
                let nl = store.func_n_locals(iidx, fi);
                let mut k: usize = 0;
                while k < nl
                    invariant
                        k <= nl,
                    decreases nl - k,
                {
                    locals.push(Val::I32(0));
                    k = k + 1;
                }
                // Continue after the call once the callee returns.
                cur.pc = cur.pc + 1;
                let callee = Frame { func: fi, pc: 0, locals, stack: Vec::new() };
                match run_frame(store, handler, iidx, callee, depth_budget - 1) {
                    RunOutcome::Done(mut vals) => {
                        cur.stack.append(&mut vals);
                    },
                    RunOutcome::Suspended(mut chain) => {
                        // Contribute this activation to the captured chain,
                        // outermost first.
                        chain.insert(0, cur);
                        return RunOutcome::Suspended(chain);
                    },
                    RunOutcome::Trapped(t) => {
                        return RunOutcome::Trapped(t);
                    },
                }
            },
            crate::program::Instr::CallHost(_) => {
                // Everything the host is handed goes through one verified
                // extraction with an exact contract: the true import index,
                // the call's arguments, and a faithful `Caller`.
                let (ii, imp, args, mut caller) = match host_call_inputs(store, iidx, &cur) {
                    Ok(out) => out,
                    Err(t) => {
                        return RunOutcome::Trapped(t);
                    },
                };
                let base = cur.stack.len() - imp.n_params;
                match handler.host_call(&mut caller, ii, &args) {
                    Ok(mut vals) => {
                        if caller.suspend_requested && store.capture_enabled {
                            // Suspension accepted: execution must continue at
                            // the instruction after the call.
                            cur.pc = cur.pc + 1;
                            let mut chain: Vec<Frame> = Vec::new();
                            chain.push(cur);
                            return RunOutcome::Suspended(chain);
                        }
                        if vals.len() != imp.n_results {
                            return RunOutcome::Trapped(Trap::InvalidProgram);
                        }
                        let ghost vals_g = vals@;
                        cur.stack.truncate(base);
                        cur.stack.append(&mut vals);
                        cur.pc = cur.pc + 1;
                        proof {
                            let code = m0.funcs@[entry_func as int].code@;
                            if (exists|cpos: int| crate::machine::single_host_call(code, cpos))
                                && cur0.pc == 0 {
                                let cpos = choose|cpos: int|
                                    crate::machine::single_host_call(code, cpos);
                                assert(cur_h.pc == cpos);
                                assert(crate::machine::run_to_call_spec(m0, cur_h, g_h, fe, fuel_h)
                                    == Some((cur_h, g_h, fuel_h)));
                                let s = crate::machine::run_to_call_spec(
                                    m0,
                                    cur0,
                                    g0,
                                    fe,
                                    fuel0,
                                )->Some_0;
                                assert(s == (cur_h, g_h, fuel_h));
                                assert(crate::machine::call_reached(m0, cur0, g0, fe, fuel0, vals_g));
                                assert(cur@ =~= (crate::frame::FrameModel {
                                    pc: (s.0.pc + 1) as nat,
                                    stack: crate::machine::injected_stack(
                                        s.0.stack,
                                        imp.n_params as nat,
                                        vals_g,
                                    ),
                                    ..s.0
                                }));
                                assert(crate::machine::run_plain_spec(
                                    m0,
                                    cur@,
                                    store.instances@[iidx as int].globals@,
                                    fe,
                                    store.fuel as nat,
                                ) == crate::machine::post_call_run(m0, cur0, g0, fe, fuel0, vals_g));
                            }
                        }
                    },
                    Err(t) => {
                        // Host errors (and aborted suspend requests outside
                        // capture mode) propagate unchanged.
                        return RunOutcome::Trapped(t);
                    },
                }
            },
            _ => {
                match crate::machine::step_plain(store, iidx, &mut cur, instr) {
                    Ok(()) => {},
                    Err(t) => {
                        return RunOutcome::Trapped(t);
                    },
                }
            },
        }
    }
}

/// Override-value injection: consumes the pending host call's
/// still-materialized arguments and puts the supplied values exactly where
/// that call's results would have gone, so they flow into the guest
/// computation in place of whatever the host's own logic would have
/// produced.  Nothing else of the activation moves.
pub(crate) fn inject_overrides(cur: &mut Frame, n_params: usize, values: Vec<Val>)
    requires
        old(cur).stack@.len() >= n_params,
    ensures
        final(cur).stack@ == old(cur).stack@.take(old(cur).stack@.len() - n_params) + values@,
        final(cur).pc == old(cur).pc,
        final(cur).func == old(cur).func,
        final(cur).locals == old(cur).locals,
{
    let mut values = values;
    let base = cur.stack.len() - n_params;
    cur.stack.truncate(base);
    cur.stack.append(&mut values);
}

/// The relation between a context before a call into guest code and the
/// context after it unwound with an error: either nothing is paused and the
/// token counter did not move, or the error is the distinguished paused
/// signal and the registry holds a fresh, addressable suspension scoped to
/// the given instance, its budget sampled at capture time.
pub open spec fn suspension_recorded(pre: Store, post: Store, instance_id: usize, t: Trap) -> bool {
    match post.registry.entry {
        Some(e) => {
            &&& t is SuspendedSignal
            &&& pre.capture_enabled
            &&& e.instance_id == instance_id
            &&& e.token == pre.token_counter
            &&& post.token_counter == pre.token_counter + 1
            &&& e.state.resume_address != 0
            &&& e.state.frame_base != 0
            &&& e.state.is_addressable()
            &&& e.state.remaining_budget == (if pre.fuel_enabled {
                Some(post.fuel)
            } else {
                None::<u64>
            })
        },
        None => post.token_counter == pre.token_counter,
    }
}

/// A completed invocation of function `fidx` with arguments `args` on a
/// single-host-call body computed exactly: the deterministic prefix from
/// the fresh frame up to the host call, `vs` — what the host produced — in
/// the call's result slots, then the deterministic suffix, yielding
/// `vals`, the final globals and the remaining budget.
pub open spec fn invoke_via_host(
    pre: Store,
    post: Store,
    iidx: int,
    fidx: int,
    args: Seq<Val>,
    vals: Seq<Val>,
    vs: Seq<Val>,
) -> bool {
    let m = pre.instances@[iidx].module;
    let f0 = FrameModel {
        func: fidx as nat,
        pc: 0,
        locals: args + Seq::new(m.funcs@[fidx].n_locals as nat, |i: int| Val::I32(0)),
        stack: Seq::empty(),
    };
    let g = pre.instances@[iidx].globals@;
    &&& crate::machine::call_reached(m, f0, g, pre.fuel_enabled, pre.fuel as nat, vs)
    &&& {
        let rr = crate::machine::post_call_run(m, f0, g, pre.fuel_enabled, pre.fuel as nat, vs);
        &&& rr is Ok
        &&& vals == rr->Ok_0.0
        &&& post.instances@[iidx].globals@ == rr->Ok_0.1
        &&& (pre.fuel_enabled ==> post.fuel as nat == rr->Ok_0.2)
    }
}

/// Some value sequence of the host call's declared result arity — what the
/// host produced — explains the completed invocation exactly, per
/// `invoke_via_host`.
pub open spec fn some_host_result_explains(
    pre: Store,
    post: Store,
    iidx: int,
    fidx: int,
    args: Seq<Val>,
    vals: Seq<Val>,
) -> bool {
    exists|vs: Seq<Val>| #![auto] invoke_via_host(pre, post, iidx, fidx, args, vals, vs)
}

impl crate::instance::Instance {
    /// Invokes a guest function of this instance and runs it to completion,
    /// a trap, or a suspension.
    ///
    /// `args` become the function's parameters.  On completion the declared
    /// number of result values is returned and nothing is paused.  When a
    /// host function requests suspension in capture mode, the call unwinds
    /// with `SuspendedSignal` and the registry holds the captured
    /// suspension, scoped to this instance; outside capture mode the signal
    /// propagates with nothing captured.  An out-of-range function index or
    /// a wrong argument count is rejected up front with `InvalidProgram`.
    #[verifier::loop_isolation(false)]
    #[verifier::spinoff_prover]
    #[verifier::rlimit(60)]
    pub fn invoke<H: HostHandler>(
        &self,
        store: &mut Store,
        handler: &mut H,
        func_index: usize,
        args: Vec<Val>,
    ) -> (r: Result<Vec<Val>, Trap>)
        requires
            old(store).wf(),
            !old(store).is_paused_spec(),
            old(store).token_counter < u64::MAX,
            self.valid_for(*old(store)),
        ensures
            final(store).wf(),
            store_shape_kept(*old(store), *final(store), self.index()),
            ({
                let m = old(store).instances@[self.index()].module;
                &&& ((func_index >= m.funcs@.len() || args@.len() != m.funcs@[
                    func_index as int
                ].n_params) ==> (*final(store) == *old(store) && r == Err::<Vec<Val>, Trap>(
                    Trap::InvalidProgram,
                )))
                &&& match r {
                    Ok(vals) => {
                        &&& !final(store).is_paused_spec()
                        &&& final(store).token_counter == old(store).token_counter
                        &&& func_index < m.funcs@.len()
                        &&& vals@.len() == m.funcs@[func_index as int].n_results
                    },
                    Err(t) => {
                        &&& suspension_recorded(*old(store), *final(store), self.id, t)
                        &&& (!old(store).capture_enabled ==> !final(store).is_paused_spec())
                    },
                }
            }),
            ({
                let m = old(store).instances@[self.index()].module;
                (func_index < m.funcs@.len() && args@.len() == m.funcs@[func_index as int].n_params
                    && crate::machine::no_calls(m.funcs@[func_index as int].code@)) ==> ({
                    let f0 = (crate::frame::FrameModel {
                        func: func_index as nat,
                        pc: 0,
                        locals: args@ + Seq::new(
                            m.funcs@[func_index as int].n_locals as nat,
                            |i: int| Val::I32(0),
                        ),
                        stack: Seq::empty(),
                    });
                    let spec_r = crate::machine::run_plain_spec(
                        m,
                        f0,
                        old(store).instances@[self.index()].globals@,
                        old(store).fuel_enabled,
                        old(store).fuel as nat,
                    );
                    match r {
                        Ok(vals) => (spec_r matches Ok(o) && vals@ == o.0
                            && final(store).instances@[self.index()].globals@ == o.1
                            && final(store).fuel as nat == o.2),
                        Err(t) => spec_r == Err::<(Seq<Val>, Seq<Val>, nat), Trap>(t),
                    }
                })
            }),
            ({
                // A completed invocation of a body whose only call is one
                // host call equals: the deterministic prefix up to the
                // call, some result values of the call's declared arity
                // (what the host produced), then the deterministic suffix.
                let m = old(store).instances@[self.index()].module;
                match r {
                    Ok(vals) => (func_index < m.funcs@.len() && args@.len() == m.funcs@[
                        func_index as int
                    ].n_params && (exists|cpos: int|
                        crate::machine::single_host_call(
                            m.funcs@[func_index as int].code@,
                            cpos,
                        ))) ==> some_host_result_explains(
                        *old(store),
                        *final(store),
                        self.index(),
                        func_index as int,
                        args@,
                        vals@,
                    ),
                    Err(_) => true,
                }
            }),
            ({
                let m = old(store).instances@[self.index()].module;
                match final(store).registry.entry {
                    Some(e) => (func_index < m.funcs@.len() && args@.len() == m.funcs@[
                        func_index as int
                    ].n_params && (exists|cpos: int|
                        crate::machine::single_host_call(
                            m.funcs@[func_index as int].code@,
                            cpos,
                        ))) ==> capture_exact(
                        *old(store),
                        *final(store),
                        self.index(),
                        (crate::frame::FrameModel {
                            func: func_index as nat,
                            pc: 0,
                            locals: args@ + Seq::new(
                                m.funcs@[func_index as int].n_locals as nat,
                                |i: int| Val::I32(0),
                            ),
                            stack: Seq::empty(),
                        }),
                        e.frames@,
                    ),
                    None => true,
                }
            }),
    {
        let iidx = self.id - 1;
        if func_index >= store.func_count(iidx) {
            return Err(Trap::InvalidProgram);
        }
        if args.len() != store.func_n_params(iidx, func_index) {
            return Err(Trap::InvalidProgram);
        }
        let nl = store.func_n_locals(iidx, func_index);
        let mut locals = args;
        let mut k: usize = 0;
        while k < nl
            invariant
                k <= nl,
                locals@ == args@ + Seq::new(k as nat, |i: int| Val::I32(0)),
            decreases nl - k,
        {
            locals.push(Val::I32(0));
            k = k + 1;
            proof {
                assert(Seq::new(k as nat, |i: int| Val::I32(0)) =~= Seq::new(
                    (k - 1) as nat,
                    |i: int| Val::I32(0),
                ).push(Val::I32(0)));
            }
        }
        let cur = Frame { func: func_index, pc: 0, locals, stack: Vec::new() };
        let ghost f0v = cur@;
        match run_frame(store, handler, iidx, cur, MAX_CALL_DEPTH) {
            RunOutcome::Done(vals) => {
                proof {
                    let m = old(store).instances@[self.index()].module;
                    let g = old(store).instances@[self.index()].globals@;
                    if func_index < m.funcs@.len() && args@.len() == m.funcs@[
                        func_index as int
                    ].n_params && (exists|cpos: int|
                        crate::machine::single_host_call(
                            m.funcs@[func_index as int].code@,
                            cpos,
                        )) {
                        let vs = choose|vs: Seq<Val>|
                            #![auto]
                            crate::machine::call_reached(
                                m,
                                f0v,
                                g,
                                old(store).fuel_enabled,
                                old(store).fuel as nat,
                                vs,
                            ) && (crate::machine::post_call_run(
                                m,
                                f0v,
                                g,
                                old(store).fuel_enabled,
                                old(store).fuel as nat,
                                vs,
                            ) matches Ok(o) && vals@ == o.0 && store.instances@[
                                iidx as int
                            ].globals@ == o.1 && (old(store).fuel_enabled ==> store.fuel as nat
                                == o.2));
                        assert(invoke_via_host(
                            *old(store),
                            *store,
                            self.index(),
                            func_index as int,
                            args@,
                            vals@,
                            vs,
                        ));
                        assert(some_host_result_explains(
                            *old(store),
                            *store,
                            self.index(),
                            func_index as int,
                            args@,
                            vals@,
                        ));
                    }
                }
                return Ok(vals);
            },
            RunOutcome::Trapped(t) => Err(t),
            RunOutcome::Suspended(chain) => {
                record_suspension(store, self.id, chain);
                Err(Trap::SuspendedSignal)
            },
        }
    }
}

impl crate::handle::ExecutionHandle {
    /// The shared resume engine.  Validates the handle against the live
    /// registry entry, removes the entry before any control transfer, then
    /// reconstructs the captured activation chain and re-enters guest code
    /// at the resume address.  With override values, they stand in for the
    /// results of the suspended host call; without them the host call is
    /// re-entered and its real results flow into the guest.  Validation
    /// failures are failure-atomic: the context, including the registry
    /// entry, is left untouched.
    #[verifier::loop_isolation(false)]
    #[verifier::spinoff_prover]
    #[verifier::rlimit(100)]
    fn resume_impl<H: HostHandler>(
        &self,
        store: &mut Store,
        handler: &mut H,
        overrides: Option<Vec<Val>>,
    ) -> (r: Result<Vec<Val>, Trap>)
        requires
            old(store).wf(),
            old(store).token_counter < u64::MAX,
        ensures
            final(store).wf(),
            !self.state.is_addressable() ==> (*final(store) == *old(store) && r == Err::<
                Vec<Val>,
                Trap,
            >(Trap::InvalidResumeState)),
            (self.state.is_addressable() && self.store_id != old(store).id) ==> (*final(store)
                == *old(store) && r == Err::<Vec<Val>, Trap>(Trap::MismatchedContext)),
            (self.state.is_addressable() && self.store_id == old(store).id && !self.is_live_in(
                *old(store),
            )) ==> (*final(store) == *old(store) && r == Err::<Vec<Val>, Trap>(
                Trap::InvalidResumeState,
            )),
            (self.can_resume_spec(*old(store)) && (overrides matches Some(v) && v@.len() != old(
                store,
            ).pending_import().n_results)) ==> (*final(store) == *old(store) && r == Err::<
                Vec<Val>,
                Trap,
            >(Trap::InvalidProgram)),
            (self.can_resume_spec(*old(store)) && (overrides matches Some(v) ==> v@.len() == old(
                store,
            ).pending_import().n_results)) ==> ({
                let entry = old(store).registry.entry->Some_0;
                &&& store_shape_kept(*old(store), *final(store), entry.instance_id - 1)
                &&& match final(store).registry.entry {
                    Some(e2) => e2.token == old(store).token_counter && e2.token > self.token,
                    None => true,
                }
                &&& match r {
                    Ok(vals) => {
                        &&& !final(store).is_paused_spec()
                        &&& final(store).token_counter == old(store).token_counter
                        &&& vals@.len() == old(store).entry_result_arity()
                    },
                    Err(t) => suspension_recorded(
                        *old(store),
                        *final(store),
                        entry.instance_id,
                        t,
                    ),
                }
            }),
            ({
                let e = old(store).registry.entry->Some_0;
                let m = old(store).instances@[e.instance_id - 1].module;
                let inner = e.frames@[0];
                (self.can_resume_spec(*old(store)) && e.frames@.len() == 1 && (overrides matches
                Some(v) && v@.len() == old(store).pending_import().n_results)
                    && crate::machine::no_calls_from(
                    m.funcs@[inner.func as int].code@,
                    inner.pc as int,
                )) ==> ({
                    let f0 = (crate::frame::FrameModel {
                        func: inner.func as nat,
                        pc: inner.pc as nat,
                        locals: inner.locals@,
                        stack: inner.stack@.take(
                            inner.stack@.len() - old(store).pending_import().n_params,
                        ) + overrides->Some_0@,
                    });
                    let spec_r = crate::machine::run_plain_spec(
                        m,
                        f0,
                        old(store).instances@[e.instance_id - 1].globals@,
                        old(store).fuel_enabled,
                        old(store).fuel as nat,
                    );
                    match r {
                        Ok(vals) => (spec_r matches Ok(o) && vals@ == o.0
                            && final(store).instances@[e.instance_id - 1].globals@ == o.1
                            && (old(store).fuel_enabled ==> final(store).fuel as nat == o.2)),
                        Err(t) => spec_r == Err::<(Seq<Val>, Seq<Val>, nat), Trap>(t),
                    }
                })
            }),
            ({
                let e = old(store).registry.entry->Some_0;
                let m = old(store).instances@[e.instance_id - 1].module;
                let inner = e.frames@[0];
                let imp = old(store).pending_import();
                let fuel_after_call = if old(store).fuel_enabled {
                    (old(store).fuel - 1) as nat
                } else {
                    old(store).fuel as nat
                };
                match r {
                    Ok(vals) => (self.can_resume_spec(*old(store)) && e.frames@.len() == 1
                        && overrides is None && crate::machine::no_calls_from(
                        m.funcs@[inner.func as int].code@,
                        inner.pc as int,
                    )) ==> exists|vs: Seq<Val>|
                        #![auto]
                        vs.len() == imp.n_results && (old(store).fuel_enabled ==> old(store).fuel
                            >= 1) && ({
                            let f1 = (crate::frame::FrameModel {
                                func: inner.func as nat,
                                pc: inner.pc as nat,
                                locals: inner.locals@,
                                stack: crate::machine::injected_stack(
                                    inner.stack@,
                                    imp.n_params as nat,
                                    vs,
                                ),
                            });
                            crate::machine::run_plain_spec(
                                m,
                                f1,
                                old(store).instances@[e.instance_id - 1].globals@,
                                old(store).fuel_enabled,
                                fuel_after_call,
                            ) matches Ok(o) && vals@ == o.0
                                && final(store).instances@[e.instance_id - 1].globals@ == o.1
                                && (old(store).fuel_enabled ==> final(store).fuel as nat == o.2)
                        }),
                    Err(_) => true,
                }
            }),
            ({
                let e = old(store).registry.entry->Some_0;
                let m = old(store).instances@[e.instance_id - 1].module;
                let inner = e.frames@.last();
                let imp = old(store).pending_import();
                let f0 = (crate::frame::FrameModel {
                    func: inner.func as nat,
                    pc: inner.pc as nat,
                    locals: inner.locals@,
                    stack: crate::machine::injected_stack(
                        inner.stack@,
                        imp.n_params as nat,
                        overrides->Some_0@,
                    ),
                });
                let spec_r = crate::machine::run_chain_spec(
                    m,
                    e.frames@.drop_last(),
                    f0,
                    old(store).instances@[e.instance_id - 1].globals@,
                    old(store).fuel_enabled,
                    old(store).fuel as nat,
                );
                let applies = self.can_resume_spec(*old(store)) && overrides is Some
                    && overrides->Some_0@.len() == imp.n_results && crate::machine::chain_straight(
                    m,
                    e.frames@,
                );
                match r {
                    Ok(vals) => applies ==> (spec_r matches Ok(o) && vals@ == o.0
                        && final(store).instances@[e.instance_id - 1].globals@ == o.1
                        && (old(store).fuel_enabled ==> final(store).fuel as nat == o.2)),
                    Err(t) => applies ==> spec_r == Err::<(Seq<Val>, Seq<Val>, nat), Trap>(t),
                }
            }),
    {
        if !(self.state.resume_address != 0 || self.state.frame_base != 0) {
            return Err(Trap::InvalidResumeState);
        }
        if self.store_id != store.id {
            return Err(Trap::MismatchedContext);
        }
        let (iid, inner_func, inner_pc) = match &store.registry.entry {
            Some(e) => {
                if e.token != self.token {
                    return Err(Trap::InvalidResumeState);
                }
                let inner = &e.frames[e.frames.len() - 1];
                (e.instance_id, inner.func, inner.pc)
            },
            None => {
                return Err(Trap::InvalidResumeState);
            },
        };
        let iidx = iid - 1;
        let ii = match store.get_instr(iidx, inner_func, inner_pc - 1) {
            crate::program::Instr::CallHost(i) => i,
            _ => unreached(),
        };
        let imp = store.import_at(iidx, ii);
        if let Some(ov) = &overrides {
            if ov.len() != imp.n_results {
                return Err(Trap::InvalidProgram);
            }
        }
        // Validation passed: consume the entry before control transfer, so
        // no repeated resume can observe it.
        let entry = match store.registry.withdraw() {
            Some(e) => e,
            None => unreached(),
        };
        let mut chain = entry.frames;
        let mut cur = match chain.pop() {
            Some(f) => f,
            None => unreached(),
        };
        let ghost bottom_func = entry.frames@[0].func;
        let ghost e0 = old(store).registry.entry->Some_0;
        let ghost m0 = old(store).instances@[e0.instance_id - 1].module;
        let ghost inner0 = e0.frames@[0];
        let ghost single_plain = self.can_resume_spec(*old(store)) && e0.frames@.len() == 1
            && overrides is Some && overrides->Some_0@.len() == old(
            store,
        ).pending_import().n_results && crate::machine::no_calls_from(
            m0.funcs@[inner0.func as int].code@,
            inner0.pc as int,
        );
        let ghost f0g = (crate::frame::FrameModel {
            func: inner0.func as nat,
            pc: inner0.pc as nat,
            locals: inner0.locals@,
            stack: inner0.stack@.take(
                inner0.stack@.len() - old(store).pending_import().n_params,
            ) + overrides->Some_0@,
        });
        let ghost single_resume = self.can_resume_spec(*old(store)) && e0.frames@.len() == 1
            && overrides is None && crate::machine::no_calls_from(
            m0.funcs@[inner0.func as int].code@,
            inner0.pc as int,
        );
        let ghost last0 = e0.frames@.last();
        let ghost parents0 = e0.frames@.drop_last();
        let ghost fe0 = old(store).fuel_enabled;
        let ghost g00 = old(store).instances@[iidx as int].globals@;
        let ghost fuel00 = old(store).fuel as nat;
        let ghost multi_plain = self.can_resume_spec(*old(store)) && overrides is Some
            && overrides->Some_0@.len() == old(store).pending_import().n_results
            && crate::machine::chain_straight(m0, e0.frames@);
        let ghost fmulti = (crate::frame::FrameModel {
            func: last0.func as nat,
            pc: last0.pc as nat,
            locals: last0.locals@,
            stack: crate::machine::injected_stack(
                last0.stack@,
                old(store).pending_import().n_params as nat,
                overrides->Some_0@,
            ),
        });
        let ghost anchor = crate::machine::run_chain_spec(m0, parents0, fmulti, g00, fe0, fuel00);
        match overrides {
            Some(ov) => {
                // The supplied values stand in for the host call's results.
                inject_overrides(&mut cur, imp.n_params, ov);
            },
            None => {
                // Step back onto the call instruction: the host function is
                // re-entered and completes its own computation.
                cur.pc = cur.pc - 1;
            },
        }
        proof {
            if single_plain {
                assert(cur@ =~= f0g);
            }
            if single_resume {
                assert(cur@ =~= (crate::frame::FrameModel {
                    pc: (inner0@.pc - 1) as nat,
                    ..inner0@
                }));
            }
            if multi_plain {
                assert(cur@ =~= fmulti);
            }
        }
        let mut pending: Vec<Val>;
        loop
            invariant
                store.wf(),
                store.registry.entry is None,
                store.token_counter == old(store).token_counter,
                iidx == iid - 1,
                iidx < store.instances@.len(),
                store_shape_kept(*old(store), *store, iidx as int),
                frames_ok(store.instances@[iidx as int].module, chain@),
                cur.func < store.instances@[iidx as int].module.funcs@.len(),
                cur.pc <= store.instances@[iidx as int].module.funcs@[cur.func as int].code@.len(),
                chain@.len() + 1 <= MAX_CALL_DEPTH,
                chain@.len() == 0 ==> cur.func == bottom_func,
                chain@.len() > 0 ==> chain@[0].func == bottom_func,
                single_plain ==> (chain@.len() == 0 && cur@ == f0g && store.instances@[
                    iidx as int
                ].globals@ == old(store).instances@[iidx as int].globals@ && store.fuel == old(
                    store,
                ).fuel),
                single_resume ==> (chain@.len() == 0 && cur@ == (crate::frame::FrameModel {
                    pc: (inner0@.pc - 1) as nat,
                    ..inner0@
                }) && store.instances@[iidx as int].globals@ == old(store).instances@[
                    iidx as int
                ].globals@ && store.fuel == old(store).fuel),
                multi_plain ==> (crate::machine::chain_straight(m0, chain@)
                    && crate::machine::no_calls_from(
                    m0.funcs@[cur.func as int].code@,
                    cur@.pc as int,
                ) && crate::machine::run_chain_spec(
                    m0,
                    chain@,
                    cur@,
                    store.instances@[iidx as int].globals@,
                    fe0,
                    store.fuel as nat,
                ) == anchor),
            decreases chain@.len(),
        {
            let ghost chain_pre = chain@;
            let depth = MAX_CALL_DEPTH - chain.len();
            match run_frame(store, handler, iidx, cur, depth) {
                RunOutcome::Done(vals) => {
                    pending = vals;
                    match chain.pop() {
                        None => {
                            return Ok(pending);
                        },
                        Some(parent) => {
                            // The callee's results flow onto the parent's
                            // operand stack; the parent continues after its
                            // call instruction.
                            cur = parent;
                            let ghost vals_g = pending@;
                            cur.stack.append(&mut pending);
                            proof {
                                if multi_plain {
                                    assert(chain@ =~= chain_pre.drop_last());
                                    assert(cur@ =~= (crate::frame::FrameModel {
                                        func: chain_pre.last().func as nat,
                                        pc: chain_pre.last().pc as nat,
                                        locals: chain_pre.last().locals@,
                                        stack: chain_pre.last().stack@ + vals_g,
                                    }));
                                }
                            }
                        },
                    }
                },
                RunOutcome::Suspended(mut part) => {
                    // Paused again during the resumed continuation: the full
                    // chain is the not-yet-re-entered outer activations plus
                    // the freshly captured part.
                    let mut full = chain;
                    full.append(&mut part);
                    record_suspension(store, iid, full);
                    return Err(Trap::SuspendedSignal);
                },
                RunOutcome::Trapped(t) => {
                    return Err(t);
                },
            }
        }
    }

    /// Resumes the suspended call without override values: the pending host
    /// call is re-entered, completes its own computation, and its real
    /// results flow into the resumed guest code, which then runs to normal
    /// completion, a trap, or a further pause.  Fails deterministically,
    /// with the context untouched, when the handle cannot resume.
    pub fn resume<H: HostHandler>(&self, store: &mut Store, handler: &mut H) -> (r: Result<
        Vec<Val>,
        Trap,
    >)
        requires
            old(store).wf(),
            old(store).token_counter < u64::MAX,
        ensures
            final(store).wf(),
            !self.state.is_addressable() ==> (*final(store) == *old(store) && r == Err::<
                Vec<Val>,
                Trap,
            >(Trap::InvalidResumeState)),
            (self.state.is_addressable() && self.store_id != old(store).id) ==> (*final(store)
                == *old(store) && r == Err::<Vec<Val>, Trap>(Trap::MismatchedContext)),
            (self.state.is_addressable() && self.store_id == old(store).id && !self.is_live_in(
                *old(store),
            )) ==> (*final(store) == *old(store) && r == Err::<Vec<Val>, Trap>(
                Trap::InvalidResumeState,
            )),
            self.can_resume_spec(*old(store)) ==> ({
                let entry = old(store).registry.entry->Some_0;
                &&& store_shape_kept(*old(store), *final(store), entry.instance_id - 1)
                &&& match final(store).registry.entry {
                    Some(e2) => e2.token == old(store).token_counter && e2.token > self.token,
                    None => true,
                }
                &&& match r {
                    Ok(vals) => {
                        &&& !final(store).is_paused_spec()
                        &&& final(store).token_counter == old(store).token_counter
                        &&& vals@.len() == old(store).entry_result_arity()
                    },
                    Err(t) => suspension_recorded(
                        *old(store),
                        *final(store),
                        entry.instance_id,
                        t,
                    ),
                }
            }),
            ({
                // State preservation without overrides: for a single-frame
                // suspension whose continuation is straight-line, the
                // completed resume equals the reference interpreter run from
                // the captured frame — same locals, same operand stack below
                // the pending call's arguments — with some value sequence of
                // the call's declared result arity (what the re-entered host
                // returned) standing in the results' place, and one unit of
                // budget drawn for the re-entered call itself.
                let e = old(store).registry.entry->Some_0;
                let m = old(store).instances@[e.instance_id - 1].module;
                let inner = e.frames@[0];
                let imp = old(store).pending_import();
                let fuel_after_call = if old(store).fuel_enabled {
                    (old(store).fuel - 1) as nat
                } else {
                    old(store).fuel as nat
                };
                match r {
                    Ok(vals) => (self.can_resume_spec(*old(store)) && e.frames@.len() == 1
                        && crate::machine::no_calls_from(
                        m.funcs@[inner.func as int].code@,
                        inner.pc as int,
                    )) ==> exists|vs: Seq<Val>|
                        #![auto]
                        vs.len() == imp.n_results && (old(store).fuel_enabled ==> old(store).fuel
                            >= 1) && ({
                            let f1 = (crate::frame::FrameModel {
                                func: inner.func as nat,
                                pc: inner.pc as nat,
                                locals: inner.locals@,
                                stack: crate::machine::injected_stack(
                                    inner.stack@,
                                    imp.n_params as nat,
                                    vs,
                                ),
                            });
                            crate::machine::run_plain_spec(
                                m,
                                f1,
                                old(store).instances@[e.instance_id - 1].globals@,
                                old(store).fuel_enabled,
                                fuel_after_call,
                            ) matches Ok(o) && vals@ == o.0
                                && final(store).instances@[e.instance_id - 1].globals@ == o.1
                                && (old(store).fuel_enabled ==> final(store).fuel as nat == o.2)
                        }),
                    Err(_) => true,
                }
            }),
    {
        self.resume_impl(store, handler, None)
    }

    /// Resumes the suspended call with override values: the supplied values
    /// stand in for the results of the paused host call, in place of
    /// whatever the host's own logic would have produced.  The override
    /// arity must match the pending call's declared result arity; a
    /// mismatch is rejected with the context untouched.
    pub fn resume_with_values<H: HostHandler>(
        &self,
        store: &mut Store,
        handler: &mut H,
        values: Vec<Val>,
    ) -> (r: Result<Vec<Val>, Trap>)
        requires
            old(store).wf(),
            old(store).token_counter < u64::MAX,
        ensures
            final(store).wf(),
            !self.state.is_addressable() ==> (*final(store) == *old(store) && r == Err::<
                Vec<Val>,
                Trap,
            >(Trap::InvalidResumeState)),
            (self.state.is_addressable() && self.store_id != old(store).id) ==> (*final(store)
                == *old(store) && r == Err::<Vec<Val>, Trap>(Trap::MismatchedContext)),
            (self.state.is_addressable() && self.store_id == old(store).id && !self.is_live_in(
                *old(store),
            )) ==> (*final(store) == *old(store) && r == Err::<Vec<Val>, Trap>(
                Trap::InvalidResumeState,
            )),
            (self.can_resume_spec(*old(store)) && values@.len() != old(
                store,
            ).pending_import().n_results) ==> (*final(store) == *old(store) && r == Err::<
                Vec<Val>,
                Trap,
            >(Trap::InvalidProgram)),
            (self.can_resume_spec(*old(store)) && values@.len() == old(
                store,
            ).pending_import().n_results) ==> ({
                let entry = old(store).registry.entry->Some_0;
                &&& store_shape_kept(*old(store), *final(store), entry.instance_id - 1)
                &&& match final(store).registry.entry {
                    Some(e2) => e2.token == old(store).token_counter && e2.token > self.token,
                    None => true,
                }
                &&& match r {
                    Ok(vals) => {
                        &&& !final(store).is_paused_spec()
                        &&& final(store).token_counter == old(store).token_counter
                        &&& vals@.len() == old(store).entry_result_arity()
                    },
                    Err(t) => suspension_recorded(
                        *old(store),
                        *final(store),
                        entry.instance_id,
                        t,
                    ),
                }
            }),
            ({
                let e = old(store).registry.entry->Some_0;
                let m = old(store).instances@[e.instance_id - 1].module;
                let inner = e.frames@[0];
                (self.can_resume_spec(*old(store)) && e.frames@.len() == 1 && values@.len() == old(
                    store,
                ).pending_import().n_results && crate::machine::no_calls_from(
                    m.funcs@[inner.func as int].code@,
                    inner.pc as int,
                )) ==> ({
                    // State preservation made exact: the continuation starts
                    // from the captured frame verbatim — same locals, same
                    // operand stack below the consumed arguments — with the
                    // override values in the host call's place, and computes
                    // exactly what the reference interpreter prescribes.
                    let f0 = (crate::frame::FrameModel {
                        func: inner.func as nat,
                        pc: inner.pc as nat,
                        locals: inner.locals@,
                        stack: inner.stack@.take(
                            inner.stack@.len() - old(store).pending_import().n_params,
                        ) + values@,
                    });
                    let spec_r = crate::machine::run_plain_spec(
                        m,
                        f0,
                        old(store).instances@[e.instance_id - 1].globals@,
                        old(store).fuel_enabled,
                        old(store).fuel as nat,
                    );
                    match r {
                        Ok(vals) => (spec_r matches Ok(o) && vals@ == o.0
                            && final(store).instances@[e.instance_id - 1].globals@ == o.1
                            && (old(store).fuel_enabled ==> final(store).fuel as nat == o.2)),
                        Err(t) => spec_r == Err::<(Seq<Val>, Seq<Val>, nat), Trap>(t),
                    }
                })
            }),
            ({
                // State preservation for the whole captured chain: whatever
                // the suspension's depth, as long as every saved activation
                // faces a straight-line remainder, an override resume
                // computes exactly the reference chain run — the innermost
                // frame with the overrides injected, each completed frame's
                // results flowing onto the next outer frame — and a trap in
                // the continuation mirrors the reference run's trap.
                let e = old(store).registry.entry->Some_0;
                let m = old(store).instances@[e.instance_id - 1].module;
                let inner = e.frames@.last();
                let imp = old(store).pending_import();
                let f0 = (crate::frame::FrameModel {
                    func: inner.func as nat,
                    pc: inner.pc as nat,
                    locals: inner.locals@,
                    stack: crate::machine::injected_stack(
                        inner.stack@,
                        imp.n_params as nat,
                        values@,
                    ),
                });
                let spec_r = crate::machine::run_chain_spec(
                    m,
                    e.frames@.drop_last(),
                    f0,
                    old(store).instances@[e.instance_id - 1].globals@,
                    old(store).fuel_enabled,
                    old(store).fuel as nat,
                );
                let applies = self.can_resume_spec(*old(store)) && values@.len() == imp.n_results
                    && crate::machine::chain_straight(m, e.frames@);
                match r {
                    Ok(vals) => applies ==> (spec_r matches Ok(o) && vals@ == o.0
                        && final(store).instances@[e.instance_id - 1].globals@ == o.1
                        && (old(store).fuel_enabled ==> final(store).fuel as nat == o.2)),
                    Err(t) => applies ==> spec_r == Err::<(Seq<Val>, Seq<Val>, nat), Trap>(t),
                }
            }),
    {
        self.resume_impl(store, handler, Some(values))
    }
}

} // verus!
