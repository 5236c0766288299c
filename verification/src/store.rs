use vstd::prelude::*;

use crate::errors::Trap;
use crate::instance::InstanceData;
use crate::program::{HostImport, Instr, Module};
use crate::registry::{PauseEntry, PauseRegistry};
use crate::value::Val;

verus! {

/// Configuration for an engine: whether guest execution is metered and
/// whether suspension snapshots carry a diagnostic call stack.
pub struct Config {
    pub consume_fuel: bool,
    pub wasm_backtrace: bool,
}

impl Config {
    /// The default configuration: metering off, diagnostic call stacks on.
    pub fn new() -> (r: Config)
        ensures
            !r.consume_fuel,
            r.wasm_backtrace,
    {
        Config { consume_fuel: false, wasm_backtrace: true }
    }

    /// Enables or disables metering for stores made from this configuration.
    pub fn consume_fuel(&mut self, enable: bool)
        ensures
            *final(self) == (Config { consume_fuel: enable, ..*old(self) }),
    {
        self.consume_fuel = enable;
    }

    /// Enables or disables diagnostic call-stack capture.
    pub fn wasm_backtrace(&mut self, enable: bool)
        ensures
            *final(self) == (Config { wasm_backtrace: enable, ..*old(self) }),
    {
        self.wasm_backtrace = enable;
    }
}

/// An engine: fixes the configuration and hands out distinct identities to
/// the execution contexts made from it, so a handle can recognize the
/// context it was drawn from.
///
/// Identities are unique per engine, not process-wide: two engines both
/// start handing out identity 1.  The mismatched-context check on resume
/// therefore distinguishes the contexts of one engine; an embedder that
/// mixes several engines must keep their stores apart itself.
pub struct Engine {
    pub fuel_enabled: bool,
    pub backtrace_enabled: bool,
    pub next_store_id: u64,
}

impl Engine {
    pub fn new(config: &Config) -> (r: Engine)
        ensures
            r.fuel_enabled == config.consume_fuel,
            r.backtrace_enabled == config.wasm_backtrace,
            r.next_store_id == 1,
    {
        Engine {
            fuel_enabled: config.consume_fuel,
            backtrace_enabled: config.wasm_backtrace,
            next_store_id: 1,
        }
    }
}

impl Default for Engine {
    /// An engine with the default configuration.
    fn default() -> (r: Engine)
        ensures
            !r.fuel_enabled,
            r.backtrace_enabled,
            r.next_store_id == 1,
    {
        Engine::new(&Config::new())
    }
}

/// The top-level execution context ("store").
///
/// It exclusively owns the pause registry — and therefore the single
/// outstanding suspension — the metering budget, and the memory of every
/// instance instantiated in it.
pub struct Store {
    /// Identity handed out by the engine; a handle records it so resume can
    /// reject a foreign context.  Unique among the stores of one engine
    /// only — stores of different engines can share an identity.
    pub id: u64,
    /// Whether execution decrements `fuel`.
    pub fuel_enabled: bool,
    /// Remaining metering budget.  Only ever decremented by execution; the
    /// pause machinery samples it without mutating it.
    pub fuel: u64,
    /// The explicit opt-in: capture suspensions instead of degrading them to
    /// non-resumable aborts.
    pub capture_enabled: bool,
    /// Whether snapshots carry a diagnostic call stack.
    pub backtrace_enabled: bool,
    /// Source of tokens for suspensions; strictly increasing, so a consumed
    /// handle can never match a later suspension.
    pub token_counter: u64,
    /// The instantiated modules and their mutable global state.
    pub instances: Vec<InstanceData>,
    /// The single live suspension, if any.
    pub registry: PauseRegistry,
}

impl Store {
    /// True iff a suspension is live in this context.
    pub open spec fn is_paused_spec(self) -> bool {
        self.registry.entry is Some
    }

    /// A captured activation chain is consistent with the module it runs:
    /// every saved frame addresses a real function body, and the innermost
    /// frame sits immediately after the host call that suspended, with the
    /// call's arguments still materialized on its operand stack.
    pub open spec fn entry_consistent(e: PauseEntry, m: Module) -> bool {
        &&& 1 <= e.frames@.len() <= crate::engine::MAX_CALL_DEPTH
        &&& forall|j: int|
            0 <= j < e.frames@.len() ==> (#[trigger] e.frames@[j]).func < m.funcs@.len()
                && e.frames@[j].pc <= m.funcs@[e.frames@[j].func as int].code@.len()
        &&& {
            let inner = e.frames@.last();
            let code = m.funcs@[inner.func as int].code@;
            &&& 1 <= inner.pc
            &&& inner.pc as u64 == e.state.resume_address
            &&& code[inner.pc - 1] is CallHost
            &&& {
                let ii = code[inner.pc - 1]->CallHost_0;
                &&& ii < m.imports@.len()
                &&& inner.stack@.len() >= m.imports@[ii as int].n_params
            }
        }
    }

    /// Well-formedness of a context: the token counter has not been
    /// exhausted by issued tokens, and a live suspension is internally
    /// consistent, scoped to a real instance, and addressable.
    pub open spec fn wf(self) -> bool {
        &&& self.token_counter >= 1
        &&& match self.registry.entry {
            Some(e) => {
                &&& 1 <= e.token < self.token_counter
                &&& 1 <= e.instance_id <= self.instances@.len()
                &&& e.state.resume_address != 0
                &&& e.state.frame_base != 0
                &&& Self::entry_consistent(e, self.instances@[e.instance_id - 1].module)
            },
            None => true,
        }
    }

    /// The module of the instance that produced the live suspension.
    pub open spec fn entry_module(self) -> Module {
        self.instances@[self.registry.entry->Some_0.instance_id - 1].module
    }

    /// The import index of the host call the live suspension is parked on.
    pub open spec fn pending_import_idx(self) -> usize {
        let e = self.registry.entry->Some_0;
        let inner = e.frames@.last();
        self.entry_module().funcs@[inner.func as int].code@[inner.pc - 1]->CallHost_0
    }

    /// The shape of the host call the live suspension is parked on.
    pub open spec fn pending_import(self) -> HostImport {
        self.entry_module().imports@[self.pending_import_idx() as int]
    }

    /// The result arity the suspended top-level call will produce when run
    /// to completion: that of the outermost suspended activation.
    pub open spec fn entry_result_arity(self) -> nat {
        self.entry_module().funcs@[self.registry.entry->Some_0.frames@[0].func as int].n_results
            as nat
    }

    /// A fresh context drawn from the engine: unpaused, unfueled, with
    /// suspension capture off (the default mode degrades a suspend request
    /// to a non-resumable abort).
    pub fn new(engine: &mut Engine) -> (r: Store)
        requires
            old(engine).next_store_id < u64::MAX,
        ensures
            *final(engine) == (Engine {
                next_store_id: (old(engine).next_store_id + 1) as u64,
                ..*old(engine)
            }),
            r.id == old(engine).next_store_id,
            r.fuel_enabled == old(engine).fuel_enabled,
            r.backtrace_enabled == old(engine).backtrace_enabled,
            r.fuel == 0,
            !r.capture_enabled,
            r.token_counter == 1,
            r.instances@.len() == 0,
            !r.is_paused_spec(),
            r.wf(),
    {
        let id = engine.next_store_id;
        engine.next_store_id = engine.next_store_id + 1;
        Store {
            id,
            fuel_enabled: engine.fuel_enabled,
            fuel: 0,
            capture_enabled: false,
            backtrace_enabled: engine.backtrace_enabled,
            token_counter: 1,
            instances: Vec::new(),
            registry: PauseRegistry::empty(),
        }
    }

    /// Sets the remaining metering budget; rejected when the engine does
    /// not meter execution.
    pub fn set_fuel(&mut self, fuel: u64) -> (r: Result<(), Trap>)
        ensures
            old(self).fuel_enabled ==> r is Ok && *final(self) == (Store { fuel, ..*old(self) }),
            !old(self).fuel_enabled ==> (r matches Err(t) && t is FuelNotEnabled && *final(self)
                == *old(self)),
    {
        if self.fuel_enabled {
            self.fuel = fuel;
            Ok(())
        } else {
            Err(Trap::FuelNotEnabled)
        }
    }

    /// Reads the remaining metering budget without mutating it.
    pub fn get_fuel(&self) -> (r: Result<u64, Trap>)
        ensures
            self.fuel_enabled ==> r == Ok::<u64, Trap>(self.fuel),
            !self.fuel_enabled ==> (r matches Err(t) && t is FuelNotEnabled),
    {
        if self.fuel_enabled {
            Ok(self.fuel)
        } else {
            Err(Trap::FuelNotEnabled)
        }
    }

    /// The metering gauge: samples the remaining budget without mutating
    /// it; absent when metering is disabled.  Every snapshot records this
    /// sample.
    pub fn sample_remaining(&self) -> (r: Option<u64>)
        ensures
            r == (if self.fuel_enabled {
                Some(self.fuel)
            } else {
                None::<u64>
            }),
    {
        if self.fuel_enabled {
            Some(self.fuel)
        } else {
            None
        }
    }

    /// The opt-in toggle: capture suspensions instead of discarding them,
    /// so the top-level call stub returns cleanly with the distinguished
    /// "paused" error while the suspension stays resumable.
    pub fn set_pause_execution_no_unwind(&mut self)
        ensures
            *final(self) == (Store { capture_enabled: true, ..*old(self) }),
    {
        self.capture_enabled = true;
    }

    /// True iff a suspension is live in this context.
    pub fn is_execution_paused(&self) -> (r: bool)
        ensures
            r == self.is_paused_spec(),
    {
        self.registry.is_paused()
    }

    /// Read-only inspection of the live snapshot, if any.
    pub fn peek_paused_state(&self) -> (r: Option<&crate::paused::PausedState>)
        ensures
            r is Some <==> self.is_paused_spec(),
            r is Some ==> *r->Some_0 == self.registry.entry->Some_0.state,
    {
        self.registry.peek()
    }

    /// Abandons the live suspension without resuming it: the capability and
    /// its captured activation chain are discarded permanently.  No guest
    /// code runs.
    pub fn clear_paused_state(&mut self)
        ensures
            !final(self).is_paused_spec(),
            old(self).wf() ==> final(self).wf(),
            *final(self) == (Store { registry: final(self).registry, ..*old(self) }),
            final(self).registry.entry is None,
    {
        self.registry.clear();
    }

    /// Fetches one instruction of an instantiated module.
    pub fn get_instr(&self, iidx: usize, f: usize, pc: usize) -> (r: Instr)
        requires
            iidx < self.instances@.len(),
            f < self.instances@[iidx as int].module.funcs@.len(),
            pc < self.instances@[iidx as int].module.funcs@[f as int].code@.len(),
        ensures
            r == self.instances@[iidx as int].module.funcs@[f as int].code@[pc as int],
    {
        self.instances[iidx].module.funcs[f].code[pc]
    }

    /// The number of functions of an instantiated module.
    pub fn func_count(&self, iidx: usize) -> (r: usize)
        requires
            iidx < self.instances@.len(),
        ensures
            r == self.instances@[iidx as int].module.funcs@.len(),
    {
        self.instances[iidx].module.funcs.len()
    }

    /// The body length of one function of an instantiated module.
    pub fn code_len(&self, iidx: usize, f: usize) -> (r: usize)
        requires
            iidx < self.instances@.len(),
            f < self.instances@[iidx as int].module.funcs@.len(),
        ensures
            r == self.instances@[iidx as int].module.funcs@[f as int].code@.len(),
    {
        self.instances[iidx].module.funcs[f].code.len()
    }

    /// The parameter count of one function.
    pub fn func_n_params(&self, iidx: usize, f: usize) -> (r: usize)
        requires
            iidx < self.instances@.len(),
            f < self.instances@[iidx as int].module.funcs@.len(),
        ensures
            r == self.instances@[iidx as int].module.funcs@[f as int].n_params,
    {
        self.instances[iidx].module.funcs[f].n_params
    }

    /// The declared-local count of one function.
    pub fn func_n_locals(&self, iidx: usize, f: usize) -> (r: usize)
        requires
            iidx < self.instances@.len(),
            f < self.instances@[iidx as int].module.funcs@.len(),
        ensures
            r == self.instances@[iidx as int].module.funcs@[f as int].n_locals,
    {
        self.instances[iidx].module.funcs[f].n_locals
    }

    /// The result arity of one function.
    pub fn func_n_results(&self, iidx: usize, f: usize) -> (r: usize)
        requires
            iidx < self.instances@.len(),
            f < self.instances@[iidx as int].module.funcs@.len(),
        ensures
            r == self.instances@[iidx as int].module.funcs@[f as int].n_results,
    {
        self.instances[iidx].module.funcs[f].n_results
    }

    /// A copy of the optional symbolic name of one function.
    pub fn func_name_dup(&self, iidx: usize, f: usize) -> (r: Option<String>)
        requires
            iidx < self.instances@.len(),
            f < self.instances@[iidx as int].module.funcs@.len(),
        ensures
            r == self.instances@[iidx as int].module.funcs@[f as int].name,
    {
        crate::program::dup_name(&self.instances[iidx].module.funcs[f].name)
    }

    /// The number of host imports of an instantiated module.
    pub fn import_count(&self, iidx: usize) -> (r: usize)
        requires
            iidx < self.instances@.len(),
        ensures
            r == self.instances@[iidx as int].module.imports@.len(),
    {
        self.instances[iidx].module.imports.len()
    }

    /// The shape of one host import.
    pub fn import_at(&self, iidx: usize, i: usize) -> (r: HostImport)
        requires
            iidx < self.instances@.len(),
            i < self.instances@[iidx as int].module.imports@.len(),
        ensures
            r == self.instances@[iidx as int].module.imports@[i as int],
    {
        self.instances[iidx].module.imports[i]
    }

    /// The number of globals of an instance.
    pub fn global_count(&self, iidx: usize) -> (r: usize)
        requires
            iidx < self.instances@.len(),
        ensures
            r == self.instances@[iidx as int].globals@.len(),
    {
        self.instances[iidx].globals.len()
    }

    /// Reads one global of an instance.
    pub fn global_read(&self, iidx: usize, g: usize) -> (r: Val)
        requires
            iidx < self.instances@.len(),
            g < self.instances@[iidx as int].globals@.len(),
        ensures
            r == self.instances@[iidx as int].globals@[g as int],
    {
        self.instances[iidx].globals[g]
    }

    /// Writes one global of an instance; every other part of the context is
    /// untouched.
    pub fn global_write(&mut self, iidx: usize, g: usize, v: Val)
        requires
            iidx < old(self).instances@.len(),
            g < old(self).instances@[iidx as int].globals@.len(),
        ensures
            *final(self) == (Store { instances: final(self).instances, ..*old(self) }),
            final(self).instances@.len() == old(self).instances@.len(),
            forall|j: int|
                0 <= j < old(self).instances@.len() && j != iidx ==> final(self).instances@[j]
                    == old(self).instances@[j],
            final(self).instances@[iidx as int].module == old(self).instances@[iidx as int].module,
            final(self).instances@[iidx as int].globals@ == old(self).instances@[iidx as int].globals@.update(g as int, v),
    {
        self.instances[iidx].globals[g] = v;
    }
}

} // verus!
