use pause_core::{
    Caller, Config, Engine, ExecutionHandle, FuncDef, HostHandler, HostImport, Instance, Instr,
    Module, PausedState, Store, Trap, Val,
};

struct PauseOnFirst {
    calls: u32,
    results: Vec<Val>,
}

impl HostHandler for PauseOnFirst {
    fn host_call(
        &mut self,
        caller: &mut Caller,
        _import: usize,
        _args: &Vec<Val>,
    ) -> Result<Vec<Val>, Trap> {
        self.calls += 1;
        if self.calls == 1 {
            caller.pause_execution()?;
            Ok(vec![])
        } else {
            Ok(self.results.clone())
        }
    }
}

struct NeverPause;

impl HostHandler for NeverPause {
    fn host_call(
        &mut self,
        _caller: &mut Caller,
        _import: usize,
        _args: &Vec<Val>,
    ) -> Result<Vec<Val>, Trap> {
        Ok(vec![])
    }
}

fn add_after_pause_module() -> Module {
    // i32.const 100; call host (result i32); i32.add
    Module {
        imports: vec![HostImport { n_params: 0, n_results: 1 }],
        funcs: vec![FuncDef {
            name: Some("add_after_pause".to_string()),
            n_params: 0,
            n_locals: 0,
            n_results: 1,
            code: vec![Instr::I32Const(100), Instr::CallHost(0), Instr::I32Add],
        }],
        globals: vec![],
    }
}

fn paused_store_and_handler() -> (Store, Instance, PauseOnFirst) {
    let mut engine = Engine::default();
    let mut store = Store::new(&mut engine);
    store.set_pause_execution_no_unwind();
    let instance = Instance::new(&mut store, add_after_pause_module());
    let mut handler = PauseOnFirst { calls: 0, results: vec![Val::I32(7)] };
    let result = instance.invoke(&mut store, &mut handler, 0, vec![]);
    assert!(matches!(result, Err(Trap::SuspendedSignal)));
    assert!(store.is_execution_paused());
    (store, instance, handler)
}

#[test]
fn invalid_state_handle_always_rejected() {
    let mut engine = Engine::default();
    let mut store = Store::new(&mut engine);
    let mut handler = NeverPause;

    let forged = ExecutionHandle::from_paused_state(PausedState::invalid());
    assert!(!forged.can_resume(&store));
    let r = forged.resume(&mut store, &mut handler);
    assert!(matches!(r, Err(Trap::InvalidResumeState)));
    assert!(!store.is_execution_paused());

    // Even while a genuine suspension is live, the all-zero handle is
    // rejected and the live suspension is untouched.
    let (mut store, _instance, mut handler) = paused_store_and_handler();
    let forged = ExecutionHandle::from_paused_state(PausedState::invalid());
    let r = forged.resume(&mut store, &mut handler);
    assert!(matches!(r, Err(Trap::InvalidResumeState)));
    assert!(store.is_execution_paused(), "rejected resume must not mutate the context");
    let real = store.capture_execution_handle().unwrap();
    let r = real.resume(&mut store, &mut handler);
    assert_eq!(r.unwrap(), vec![Val::I32(107)]);
}

#[test]
fn override_value_resume() {
    let (mut store, _instance, mut handler) = paused_store_and_handler();
    let handle = store.capture_execution_handle().unwrap();

    // The supplied value stands in for the host call's result: the host
    // would have produced 7, the override forces 42.
    let r = handle.resume_with_values(&mut store, &mut handler, vec![Val::I32(42)]);
    assert_eq!(r.unwrap(), vec![Val::I32(142)]);
    assert!(!store.is_execution_paused());
    assert_eq!(handler.calls, 1, "override resume must not re-enter the host function");
}

#[test]
fn override_arity_mismatch_rejected() {
    let (mut store, _instance, mut handler) = paused_store_and_handler();
    let handle = store.capture_execution_handle().unwrap();

    let r = handle.resume_with_values(&mut store, &mut handler, vec![]);
    assert!(matches!(r, Err(Trap::InvalidProgram)));
    assert!(store.is_execution_paused(), "failed validation leaves the suspension live");

    // The untouched suspension still resumes normally afterwards.
    let r = handle.resume(&mut store, &mut handler);
    assert_eq!(r.unwrap(), vec![Val::I32(107)]);
}

#[test]
fn double_resume_fails_second_time() {
    let (mut store, instance, mut handler) = paused_store_and_handler();
    let handle = store.capture_execution_handle().unwrap();
    let other = instance.get_execution_handle(&store).unwrap();
    assert!(handle.can_resume(&store));
    assert!(other.can_resume(&store));

    let r = handle.resume(&mut store, &mut handler);
    assert!(r.is_ok());

    // Every previously obtained handle for that suspension is now invalid.
    assert!(!handle.can_resume(&store));
    assert!(!other.can_resume(&store));
    let r = handle.resume(&mut store, &mut handler);
    assert!(matches!(r, Err(Trap::InvalidResumeState)));
    let r = other.resume(&mut store, &mut handler);
    assert!(matches!(r, Err(Trap::InvalidResumeState)));
}

#[test]
fn globals_preserved_across_pause() {
    let mut engine = Engine::default();
    let mut store = Store::new(&mut engine);
    store.set_pause_execution_no_unwind();
    // global 0 starts at 7; the guest writes 5, pauses, then reads it back.
    let module = Module {
        imports: vec![HostImport { n_params: 0, n_results: 0 }],
        funcs: vec![FuncDef {
            name: None,
            n_params: 0,
            n_locals: 0,
            n_results: 1,
            code: vec![
                Instr::I32Const(5),
                Instr::GlobalSet(0),
                Instr::CallHost(0),
                Instr::GlobalGet(0),
            ],
        }],
        globals: vec![Val::I32(7)],
    };
    let instance = Instance::new(&mut store, module);
    let mut handler = PauseOnFirst { calls: 0, results: vec![] };
    let result = instance.invoke(&mut store, &mut handler, 0, vec![]);
    assert!(matches!(result, Err(Trap::SuspendedSignal)));

    let handle = store.capture_execution_handle().unwrap();
    let r = handle.resume(&mut store, &mut handler);
    assert_eq!(
        r.unwrap(),
        vec![Val::I32(5)],
        "guest-global mutations made before suspension stay visible after resume"
    );
}

#[test]
fn metering_monotone_across_pause_resume() {
    let mut config = Config::new();
    config.consume_fuel(true);
    let mut engine = Engine::new(&config);
    let mut store = Store::new(&mut engine);
    store.set_fuel(1000).unwrap();
    store.set_pause_execution_no_unwind();

    let instance = Instance::new(&mut store, add_after_pause_module());
    let mut handler = PauseOnFirst { calls: 0, results: vec![Val::I32(7)] };
    let result = instance.invoke(&mut store, &mut handler, 0, vec![]);
    assert!(matches!(result, Err(Trap::SuspendedSignal)));

    let fuel_at_pause = store.get_fuel().unwrap();
    assert!(fuel_at_pause < 1000, "executed instructions draw budget");

    // The snapshot sampled the budget without mutating it.
    let state = store.peek_paused_state().unwrap();
    assert_eq!(state.remaining_budget, Some(fuel_at_pause));

    let handle = store.capture_execution_handle().unwrap();
    let r = handle.resume(&mut store, &mut handler);
    assert!(r.is_ok());
    let fuel_after_resume = store.get_fuel().unwrap();
    assert!(
        fuel_after_resume <= fuel_at_pause,
        "resume draws from the same decremented budget; nothing is replenished"
    );
}

#[test]
fn clear_discards_suspension_permanently() {
    let (mut store, instance, mut handler) = paused_store_and_handler();
    let handle = store.capture_execution_handle().unwrap();

    store.clear_paused_state();
    assert!(!store.is_execution_paused());
    assert!(store.capture_execution_handle().is_none());
    assert!(instance.get_execution_handle(&store).is_none());
    assert!(store.peek_paused_state().is_none());
    assert!(!handle.can_resume(&store));
    let r = handle.resume(&mut store, &mut handler);
    assert!(matches!(r, Err(Trap::InvalidResumeState)));
}

#[test]
fn default_mode_aborts_instead_of_capturing() {
    // Without the opt-in toggle, a suspend request degrades to a
    // non-resumable abort: the paused error surfaces but nothing is
    // captured.
    let mut engine = Engine::default();
    let mut store = Store::new(&mut engine);
    let instance = Instance::new(&mut store, add_after_pause_module());
    let mut handler = PauseOnFirst { calls: 0, results: vec![Val::I32(7)] };

    let result = instance.invoke(&mut store, &mut handler, 0, vec![]);
    assert!(matches!(result, Err(Trap::SuspendedSignal)));
    assert!(!store.is_execution_paused());
    assert!(store.capture_execution_handle().is_none());
}

#[test]
fn mismatched_context_rejected() {
    let mut engine = Engine::default();
    let mut other_store = Store::new(&mut engine);
    let mut store = Store::new(&mut engine);
    store.set_pause_execution_no_unwind();
    let instance = Instance::new(&mut store, add_after_pause_module());
    let mut handler = PauseOnFirst { calls: 0, results: vec![Val::I32(7)] };
    let result = instance.invoke(&mut store, &mut handler, 0, vec![]);
    assert!(matches!(result, Err(Trap::SuspendedSignal)));

    let handle = store.capture_execution_handle().unwrap();
    let r = handle.resume(&mut other_store, &mut handler);
    assert!(matches!(r, Err(Trap::MismatchedContext)));
    assert!(store.is_execution_paused(), "the owning context is untouched");

    let r = handle.resume(&mut store, &mut handler);
    assert_eq!(r.unwrap(), vec![Val::I32(107)]);
}

#[test]
fn nested_guest_calls_pause_and_resume() {
    let mut engine = Engine::default();
    let mut store = Store::new(&mut engine);
    store.set_pause_execution_no_unwind();

    // (func $main (result i32) call $helper; i32.const 100; i32.add)
    // (func $helper (result i32) call $pause; i32.const 200)
    let module = Module {
        imports: vec![HostImport { n_params: 0, n_results: 0 }],
        funcs: vec![
            FuncDef {
                name: Some("call_pause".to_string()),
                n_params: 0,
                n_locals: 0,
                n_results: 1,
                code: vec![Instr::Call(1), Instr::I32Const(100), Instr::I32Add],
            },
            FuncDef {
                name: Some("helper_function".to_string()),
                n_params: 0,
                n_locals: 0,
                n_results: 1,
                code: vec![Instr::CallHost(0), Instr::I32Const(200)],
            },
        ],
        globals: vec![],
    };
    let instance = Instance::new(&mut store, module);
    let mut handler = PauseOnFirst { calls: 0, results: vec![] };

    let result = instance.invoke(&mut store, &mut handler, 0, vec![]);
    assert!(matches!(result, Err(Trap::SuspendedSignal)));

    // The diagnostic call stack lists the whole chain, innermost first.
    let state = store.peek_paused_state().unwrap();
    assert_eq!(state.call_stack.len(), 2);
    assert_eq!(state.call_stack[0].name.as_deref(), Some("helper_function"));
    assert_eq!(state.call_stack[1].name.as_deref(), Some("call_pause"));
    assert_eq!(state.call_stack[0].offset, 1, "innermost offset: just after the host call");

    let handle = store.capture_execution_handle().unwrap();
    let r = handle.resume(&mut store, &mut handler);
    assert_eq!(r.unwrap(), vec![Val::I32(300)]);
}

#[test]
fn nested_override_resume() {
    let mut engine = Engine::default();
    let mut store = Store::new(&mut engine);
    store.set_pause_execution_no_unwind();

    // main: call helper; i32.const 100; i32.add
    // helper: call host (result i32); i32.const 200; i32.add
    let module = Module {
        imports: vec![HostImport { n_params: 0, n_results: 1 }],
        funcs: vec![
            FuncDef {
                name: None,
                n_params: 0,
                n_locals: 0,
                n_results: 1,
                code: vec![Instr::Call(1), Instr::I32Const(100), Instr::I32Add],
            },
            FuncDef {
                name: None,
                n_params: 0,
                n_locals: 0,
                n_results: 1,
                code: vec![Instr::CallHost(0), Instr::I32Const(200), Instr::I32Add],
            },
        ],
        globals: vec![],
    };
    let instance = Instance::new(&mut store, module);
    let mut handler = PauseOnFirst { calls: 0, results: vec![Val::I32(7)] };

    let result = instance.invoke(&mut store, &mut handler, 0, vec![]);
    assert!(matches!(result, Err(Trap::SuspendedSignal)));
    assert_eq!(store.peek_paused_state().unwrap().call_stack.len(), 2);

    // The override flows into the innermost suspended activation; every
    // outer activation of the captured chain then completes on top of it.
    let handle = store.capture_execution_handle().unwrap();
    let r = handle.resume_with_values(&mut store, &mut handler, vec![Val::I32(5)]);
    assert_eq!(r.unwrap(), vec![Val::I32(305)]);
    assert_eq!(handler.calls, 1, "override resume must not re-enter the host function");
    assert!(!store.is_execution_paused());
}

#[test]
fn backtrace_disabled_leaves_call_stack_empty() {
    let mut config = Config::new();
    config.wasm_backtrace(false);
    let mut engine = Engine::new(&config);
    let mut store = Store::new(&mut engine);
    store.set_pause_execution_no_unwind();
    let instance = Instance::new(&mut store, add_after_pause_module());
    let mut handler = PauseOnFirst { calls: 0, results: vec![Val::I32(7)] };
    let result = instance.invoke(&mut store, &mut handler, 0, vec![]);
    assert!(matches!(result, Err(Trap::SuspendedSignal)));
    let state = store.peek_paused_state().unwrap();
    assert_eq!(state.call_stack.len(), 0);
    assert!(state.resume_address != 0 && state.frame_base != 0);
}

#[test]
fn snapshot_addresses_are_exact() {
    let (mut store, _instance, _handler) = paused_store_and_handler();
    let state = store.peek_paused_state().unwrap();
    // Body: i32.const at 0, the host call at 1, i32.add at 2; execution
    // must continue at the instruction after the call.
    assert_eq!(state.resume_address, 2);
    assert!(state.frame_base >= 1);
    assert_eq!(state.remaining_budget, None, "metering is off in this store");
    assert_eq!(state.call_stack.len(), 1);
    assert_eq!(state.call_stack[0].offset, 2);
    assert_eq!(state.call_stack[0].name.as_deref(), Some("add_after_pause"));
    store.clear_paused_state();
}

#[test]
fn paused_flag_lifecycle() {
    // is_paused is false before the triggering call, true immediately
    // after it returns with the paused signal, false again after resume.
    let mut engine = Engine::default();
    let mut store = Store::new(&mut engine);
    store.set_pause_execution_no_unwind();
    let instance = Instance::new(&mut store, add_after_pause_module());
    let mut handler = PauseOnFirst { calls: 0, results: vec![Val::I32(7)] };

    assert!(!store.is_execution_paused());
    let result = instance.invoke(&mut store, &mut handler, 0, vec![]);
    assert!(matches!(result, Err(Trap::SuspendedSignal)));
    assert!(store.is_execution_paused());

    let handle = store.capture_execution_handle().unwrap();
    let r = handle.resume(&mut store, &mut handler);
    assert!(r.is_ok());
    assert!(!store.is_execution_paused());
}
