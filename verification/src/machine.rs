use vstd::prelude::*;

use crate::errors::Trap;
use crate::frame::{Frame, FrameModel};
use crate::program::Instr;
use crate::store::Store;
use crate::value::Val;

verus! {

/// The semantics of one straight-line instruction: how it transforms the
/// active activation and the owning instance's globals.
///
/// `Call` and `CallHost` are frame and host boundaries; they are driven by
/// the execution engine, never by plain stepping, and are mapped to the
/// malformed-code trap here so that this function is total.
pub open spec fn plain_step(f: FrameModel, globals: Seq<Val>, instr: Instr) -> Result<
    (FrameModel, Seq<Val>),
    Trap,
> {
    match instr {
        Instr::I32Const(c) => Ok(
            (FrameModel { pc: (f.pc + 1) as nat, stack: f.stack.push(Val::I32(c)), ..f }, globals),
        ),
        Instr::I64Const(c) => Ok(
            (FrameModel { pc: (f.pc + 1) as nat, stack: f.stack.push(Val::I64(c)), ..f }, globals),
        ),
        Instr::I32Add => {
            if f.stack.len() < 2 {
                Err(Trap::InvalidProgram)
            } else {
                match (f.stack[f.stack.len() - 2], f.stack[f.stack.len() - 1]) {
                    (Val::I32(a), Val::I32(b)) => Ok(
                        (
                            FrameModel {
                                pc: (f.pc + 1) as nat,
                                stack: f.stack.take(f.stack.len() - 2).push(
                                    Val::I32(a.wrapping_add(b)),
                                ),
                                ..f
                            },
                            globals,
                        ),
                    ),
                    _ => Err(Trap::InvalidProgram),
                }
            }
        },
        Instr::I64Add => {
            if f.stack.len() < 2 {
                Err(Trap::InvalidProgram)
            } else {
                match (f.stack[f.stack.len() - 2], f.stack[f.stack.len() - 1]) {
                    (Val::I64(a), Val::I64(b)) => Ok(
                        (
                            FrameModel {
                                pc: (f.pc + 1) as nat,
                                stack: f.stack.take(f.stack.len() - 2).push(
                                    Val::I64(a.wrapping_add(b)),
                                ),
                                ..f
                            },
                            globals,
                        ),
                    ),
                    _ => Err(Trap::InvalidProgram),
                }
            }
        },
        Instr::LocalGet(x) => {
            if x < f.locals.len() {
                Ok(
                    (
                        FrameModel { pc: (f.pc + 1) as nat, stack: f.stack.push(f.locals[x as int]), ..f },
                        globals,
                    ),
                )
            } else {
                Err(Trap::InvalidProgram)
            }
        },
        Instr::LocalSet(x) => {
            if x < f.locals.len() && f.stack.len() >= 1 {
                Ok(
                    (
                        FrameModel {
                            pc: (f.pc + 1) as nat,
                            stack: f.stack.drop_last(),
                            locals: f.locals.update(x as int, f.stack.last()),
                            ..f
                        },
                        globals,
                    ),
                )
            } else {
                Err(Trap::InvalidProgram)
            }
        },
        Instr::GlobalGet(x) => {
            if x < globals.len() {
                Ok(
                    (
                        FrameModel { pc: (f.pc + 1) as nat, stack: f.stack.push(globals[x as int]), ..f },
                        globals,
                    ),
                )
            } else {
                Err(Trap::InvalidProgram)
            }
        },
        Instr::GlobalSet(x) => {
            if x < globals.len() && f.stack.len() >= 1 {
                Ok(
                    (
                        FrameModel { pc: (f.pc + 1) as nat, stack: f.stack.drop_last(), ..f },
                        globals.update(x as int, f.stack.last()),
                    ),
                )
            } else {
                Err(Trap::InvalidProgram)
            }
        },
        Instr::Call(_) => Err(Trap::InvalidProgram),
        Instr::CallHost(_) => Err(Trap::InvalidProgram),
    }
}

/// From position `from` onward the body is straight-line only: no guest
/// calls and no host calls, so execution of that suffix is fully
/// deterministic.
pub open spec fn no_calls_from(code: Seq<Instr>, from: int) -> bool {
    forall|p: int|
        from <= p < code.len() ==> !((#[trigger] code[p]) is Call) && !(code[p] is CallHost)
}

/// A function body made of straight-line instructions only: no guest calls
/// and no host calls, so its execution is fully deterministic.
pub open spec fn no_calls(code: Seq<Instr>) -> bool {
    no_calls_from(code, 0)
}

/// The reference interpreter for a call-free activation: starting from
/// frame `f` with globals `g` and the given metering state, it runs the
/// body to its end and yields the declared number of results (the top of
/// the operand stack), the final globals and the remaining budget — or the
/// trap that stops it.  The engine is proved to compute exactly this on
/// call-free bodies.
pub open spec fn run_plain_spec(
    m: crate::program::Module,
    f: FrameModel,
    g: Seq<Val>,
    fuel_on: bool,
    fuel: nat,
) -> Result<(Seq<Val>, Seq<Val>, nat), Trap>
    decreases m.funcs@[f.func as int].code@.len() - f.pc,
{
    if f.func >= m.funcs@.len() {
        Err(Trap::InvalidProgram)
    } else {
        let code = m.funcs@[f.func as int].code@;
        if f.pc >= code.len() {
            let nres = m.funcs@[f.func as int].n_results;
            if f.stack.len() < nres {
                Err(Trap::InvalidProgram)
            } else {
                Ok((f.stack.skip(f.stack.len() - nres), g, fuel))
            }
        } else if fuel_on && fuel == 0 {
            Err(Trap::OutOfFuel)
        } else {
            let fuel2 = if fuel_on {
                (fuel - 1) as nat
            } else {
                fuel
            };
            match plain_step(f, g, code[f.pc as int]) {
                Ok(fg) => run_plain_spec(m, fg.0, fg.1, fuel_on, fuel2),
                Err(t) => Err(t),
            }
        }
    }
}

/// The operand stack as the continuation of a pending host call sees it:
/// the call's still-materialized arguments consumed, and `vs` standing
/// exactly where the call's results go.
pub open spec fn injected_stack(stack: Seq<Val>, n_params: nat, vs: Seq<Val>) -> Seq<Val> {
    stack.take((stack.len() - n_params) as int) + vs
}

/// Position `cpos` holds the only call instruction of the body, and it is a
/// host call: everything else is straight-line, so execution up to (and
/// after) that call is fully deterministic, and the call is the body's only
/// possible suspension point.
pub open spec fn single_host_call(code: Seq<Instr>, cpos: int) -> bool {
    &&& 0 <= cpos < code.len()
    &&& code[cpos] is CallHost
    &&& forall|p: int| 0 <= p < code.len() ==> !((#[trigger] code[p]) is Call)
    &&& forall|p: int| 0 <= p < code.len() && (#[trigger] code[p]) is CallHost ==> p == cpos
}

/// The reference interpreter for the prefix of an activation up to its
/// first host call: `Some` holds the machine state with the program counter
/// on the call instruction, exactly as the straight-line steps left it;
/// `None` means the body ends, traps or runs out of budget before reaching
/// any host call, so no suspension can arise from it.
pub open spec fn run_to_call_spec(
    m: crate::program::Module,
    f: FrameModel,
    g: Seq<Val>,
    fuel_on: bool,
    fuel: nat,
) -> Option<(FrameModel, Seq<Val>, nat)>
    decreases m.funcs@[f.func as int].code@.len() - f.pc,
{
    if f.func >= m.funcs@.len() {
        None
    } else {
        let code = m.funcs@[f.func as int].code@;
        if f.pc >= code.len() {
            None
        } else if code[f.pc as int] is CallHost {
            Some((f, g, fuel))
        } else if fuel_on && fuel == 0 {
            None
        } else {
            let fuel2 = if fuel_on {
                (fuel - 1) as nat
            } else {
                fuel
            };
            match plain_step(f, g, code[f.pc as int]) {
                Ok(fg) => run_to_call_spec(m, fg.0, fg.1, fuel_on, fuel2),
                Err(_) => None,
            }
        }
    }
}

/// Every frame of the chain is positioned on a straight-line remainder:
/// from each frame's program counter to the end of its body there is no
/// call instruction, so re-entering the chain is fully deterministic.
pub open spec fn chain_straight(m: crate::program::Module, chain: Seq<Frame>) -> bool {
    forall|j: int|
        0 <= j < chain.len() ==> (#[trigger] chain[j]).func < m.funcs@.len() && no_calls_from(
            m.funcs@[chain[j].func as int].code@,
            chain[j].pc as int,
        )
}

/// The reference interpreter for a restored activation chain, outermost
/// frame first: the active frame `f` runs to the end of its body, its
/// results flow onto the innermost remaining frame's operand stack, and
/// that frame continues after its call, outward until the outermost
/// activation completes.
pub open spec fn run_chain_spec(
    m: crate::program::Module,
    chain: Seq<Frame>,
    f: FrameModel,
    g: Seq<Val>,
    fuel_on: bool,
    fuel: nat,
) -> Result<(Seq<Val>, Seq<Val>, nat), Trap>
    decreases chain.len(),
{
    match run_plain_spec(m, f, g, fuel_on, fuel) {
        Ok(o) => {
            if chain.len() == 0 {
                Ok(o)
            } else {
                let parent = chain.last();
                run_chain_spec(
                    m,
                    chain.drop_last(),
                    FrameModel {
                        func: parent.func as nat,
                        pc: parent.pc as nat,
                        locals: parent.locals@,
                        stack: parent.stack@ + o.0,
                    },
                    o.1,
                    fuel_on,
                    o.2,
                )
            }
        },
        Err(t) => Err(t),
    }
}

/// The deterministic prefix of the body starting at `f0` reaches a host
/// call: its import is known, its arguments are materialized, `vs` has the
/// call's declared result arity, and (when metering) a unit of budget
/// remains to execute the call instruction itself.
pub open spec fn call_reached(
    m: crate::program::Module,
    f0: FrameModel,
    g0: Seq<Val>,
    fuel_on: bool,
    fuel0: nat,
    vs: Seq<Val>,
) -> bool {
    let rtc = run_to_call_spec(m, f0, g0, fuel_on, fuel0);
    &&& rtc is Some
    &&& {
        let s = rtc->Some_0;
        let code = m.funcs@[s.0.func as int].code@;
        let ii = code[s.0.pc as int]->CallHost_0;
        &&& ii < m.imports@.len()
        &&& s.0.stack.len() >= m.imports@[ii as int].n_params
        &&& vs.len() == m.imports@[ii as int].n_results
        &&& (fuel_on ==> s.2 >= 1)
    }
}

/// The reference run of the remainder of the body once its host call has
/// produced `vs`: from the state the deterministic prefix left at the
/// call, one unit of budget is drawn for the call instruction, `vs` is
/// injected in place of the call's arguments, and the straight-line suffix
/// runs to the end.  Meaningful under `call_reached`.
pub open spec fn post_call_run(
    m: crate::program::Module,
    f0: FrameModel,
    g0: Seq<Val>,
    fuel_on: bool,
    fuel0: nat,
    vs: Seq<Val>,
) -> Result<(Seq<Val>, Seq<Val>, nat), Trap> {
    let s = run_to_call_spec(m, f0, g0, fuel_on, fuel0)->Some_0;
    let code = m.funcs@[s.0.func as int].code@;
    let ii = code[s.0.pc as int]->CallHost_0;
    let f1 = FrameModel {
        pc: (s.0.pc + 1) as nat,
        stack: injected_stack(s.0.stack, m.imports@[ii as int].n_params as nat, vs),
        ..s.0
    };
    let fuel1 = if fuel_on {
        (s.2 - 1) as nat
    } else {
        s.2
    };
    run_plain_spec(m, f1, s.1, fuel_on, fuel1)
}

/// Executes one straight-line instruction against the active activation and
/// the owning instance's globals, exactly as `plain_step` prescribes.  On a
/// trap nothing is mutated.
pub fn step_plain(store: &mut Store, iidx: usize, cur: &mut Frame, instr: Instr) -> (r: Result<
    (),
    Trap,
>)
    requires
        iidx < old(store).instances@.len(),
        !(instr is Call),
        !(instr is CallHost),
        old(cur).pc < usize::MAX,
    ensures
        *final(store) == (Store { instances: final(store).instances, ..*old(store) }),
        final(store).instances@.len() == old(store).instances@.len(),
        forall|j: int|
            0 <= j < old(store).instances@.len() && j != iidx ==> final(store).instances@[j]
                == old(store).instances@[j],
        final(store).instances@[iidx as int].module == old(store).instances@[iidx as int].module,
        match plain_step(old(cur)@, old(store).instances@[iidx as int].globals@, instr) {
            Ok(fg) => r is Ok && final(cur)@ == fg.0 && final(store).instances@[
                iidx as int
            ].globals@ == fg.1,
            Err(t) => r == Err::<(), Trap>(t) && *final(cur) == *old(cur) && *final(store) == *old(
                store,
            ),
        },
{
    match instr {
        Instr::I32Const(c) => {
            cur.stack.push(Val::I32(c));
            cur.pc = cur.pc + 1;
            Ok(())
        },
        Instr::I64Const(c) => {
            cur.stack.push(Val::I64(c));
            cur.pc = cur.pc + 1;
            Ok(())
        },
        Instr::I32Add => {
            let n = cur.stack.len();
            if n < 2 {
                return Err(Trap::InvalidProgram);
            }
            let a = cur.stack[n - 2];
            let b = cur.stack[n - 1];
            match (a, b) {
                (Val::I32(x), Val::I32(y)) => {
                    cur.stack.pop();
                    cur.stack.pop();
                    cur.stack.push(Val::I32(x.wrapping_add(y)));
                    cur.pc = cur.pc + 1;
                    proof {
                        assert(cur.stack@ =~= old(cur).stack@.take(old(cur).stack@.len() - 2).push(
                            Val::I32(x.wrapping_add(y)),
                        ));
                    }
                    Ok(())
                },
                _ => Err(Trap::InvalidProgram),
            }
        },
        Instr::I64Add => {
            let n = cur.stack.len();
            if n < 2 {
                return Err(Trap::InvalidProgram);
            }
            let a = cur.stack[n - 2];
            let b = cur.stack[n - 1];
            match (a, b) {
                (Val::I64(x), Val::I64(y)) => {
                    cur.stack.pop();
                    cur.stack.pop();
                    cur.stack.push(Val::I64(x.wrapping_add(y)));
                    cur.pc = cur.pc + 1;
                    proof {
                        assert(cur.stack@ =~= old(cur).stack@.take(old(cur).stack@.len() - 2).push(
                            Val::I64(x.wrapping_add(y)),
                        ));
                    }
                    Ok(())
                },
                _ => Err(Trap::InvalidProgram),
            }
        },
        Instr::LocalGet(x) => {
            if x >= cur.locals.len() {
                return Err(Trap::InvalidProgram);
            }
            let v = cur.locals[x];
            cur.stack.push(v);
            cur.pc = cur.pc + 1;
            Ok(())
        },
        Instr::LocalSet(x) => {
            if x >= cur.locals.len() || cur.stack.len() == 0 {
                return Err(Trap::InvalidProgram);
            }
            let v = cur.stack.pop().unwrap();
            cur.locals[x] = v;
            cur.pc = cur.pc + 1;
            proof {
                assert(cur.stack@ =~= old(cur).stack@.drop_last());
            }
            Ok(())
        },
        Instr::GlobalGet(x) => {
            if x >= store.global_count(iidx) {
                return Err(Trap::InvalidProgram);
            }
            let v = store.global_read(iidx, x);
            cur.stack.push(v);
            cur.pc = cur.pc + 1;
            Ok(())
        },
        Instr::GlobalSet(x) => {
            if x >= store.global_count(iidx) || cur.stack.len() == 0 {
                return Err(Trap::InvalidProgram);
            }
            let v = cur.stack.pop().unwrap();
            store.global_write(iidx, x, v);
            cur.pc = cur.pc + 1;
            proof {
                assert(cur.stack@ =~= old(cur).stack@.drop_last());
            }
            Ok(())
        },
        Instr::Call(_) => Err(Trap::InvalidProgram),
        Instr::CallHost(_) => Err(Trap::InvalidProgram),
    }
}

} // verus!
