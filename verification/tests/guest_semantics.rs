use pause_core::{
    Caller, Config, Engine, FuncDef, HostHandler, HostImport, Instance, Instr, Module, Store, Trap,
    Val,
};

struct NoHost;

impl HostHandler for NoHost {
    fn host_call(
        &mut self,
        _caller: &mut Caller,
        _import: usize,
        _args: &Vec<Val>,
    ) -> Result<Vec<Val>, Trap> {
        Ok(vec![])
    }
}

struct FailingHost;

impl HostHandler for FailingHost {
    fn host_call(
        &mut self,
        _caller: &mut Caller,
        _import: usize,
        _args: &Vec<Val>,
    ) -> Result<Vec<Val>, Trap> {
        Err(Trap::HostError("boom".to_string()))
    }
}

fn single_func_module(code: Vec<Instr>, n_locals: usize, n_results: usize) -> Module {
    Module {
        imports: vec![HostImport { n_params: 0, n_results: 0 }],
        funcs: vec![FuncDef { name: None, n_params: 0, n_locals, n_results, code }],
        globals: vec![],
    }
}

fn run(code: Vec<Instr>, n_locals: usize, n_results: usize) -> Result<Vec<Val>, Trap> {
    let mut engine = Engine::default();
    let mut store = Store::new(&mut engine);
    let instance = Instance::new(&mut store, single_func_module(code, n_locals, n_results));
    instance.invoke(&mut store, &mut NoHost, 0, vec![])
}

#[test]
fn i32_add_wraps() {
    let r = run(vec![Instr::I32Const(i32::MAX), Instr::I32Const(1), Instr::I32Add], 0, 1);
    assert_eq!(r.unwrap(), vec![Val::I32(i32::MIN)]);
}

#[test]
fn i64_add_works() {
    let big: i64 = 1 << 40;
    let r = run(vec![Instr::I64Const(big), Instr::I64Const(2), Instr::I64Add], 0, 1);
    assert_eq!(r.unwrap(), vec![Val::I64(big + 2)]);
}

#[test]
fn mixed_type_add_is_invalid() {
    let r = run(vec![Instr::I32Const(1), Instr::I64Const(2), Instr::I32Add], 0, 1);
    assert!(matches!(r, Err(Trap::InvalidProgram)));
}

#[test]
fn stack_underflow_is_invalid() {
    let r = run(vec![Instr::I32Add], 0, 1);
    assert!(matches!(r, Err(Trap::InvalidProgram)));
}

#[test]
fn out_of_range_local_is_invalid() {
    let r = run(vec![Instr::LocalGet(3)], 1, 1);
    assert!(matches!(r, Err(Trap::InvalidProgram)));
}

#[test]
fn arguments_become_locals() {
    // (func (param i32 i32) (result i32) local.get 0; local.get 1; i32.add)
    let mut engine = Engine::default();
    let mut store = Store::new(&mut engine);
    let module = Module {
        imports: vec![],
        funcs: vec![FuncDef {
            name: None,
            n_params: 2,
            n_locals: 0,
            n_results: 1,
            code: vec![Instr::LocalGet(0), Instr::LocalGet(1), Instr::I32Add],
        }],
        globals: vec![],
    };
    let instance = Instance::new(&mut store, module);
    let r = instance.invoke(&mut store, &mut NoHost, 0, vec![Val::I32(40), Val::I32(2)]);
    assert_eq!(r.unwrap(), vec![Val::I32(42)]);
}

#[test]
fn wrong_argument_count_is_invalid() {
    let mut engine = Engine::default();
    let mut store = Store::new(&mut engine);
    let module = Module {
        imports: vec![],
        funcs: vec![FuncDef {
            name: None,
            n_params: 1,
            n_locals: 0,
            n_results: 0,
            code: vec![],
        }],
        globals: vec![],
    };
    let instance = Instance::new(&mut store, module);
    let r = instance.invoke(&mut store, &mut NoHost, 0, vec![]);
    assert!(matches!(r, Err(Trap::InvalidProgram)));
    let r = instance.invoke(&mut store, &mut NoHost, 1, vec![]);
    assert!(matches!(r, Err(Trap::InvalidProgram)), "unknown function index is rejected");
}

#[test]
fn unbounded_recursion_overflows() {
    let mut engine = Engine::default();
    let mut store = Store::new(&mut engine);
    let module = Module {
        imports: vec![],
        funcs: vec![FuncDef {
            name: None,
            n_params: 0,
            n_locals: 0,
            n_results: 0,
            code: vec![Instr::Call(0)],
        }],
        globals: vec![],
    };
    let instance = Instance::new(&mut store, module);
    let r = instance.invoke(&mut store, &mut NoHost, 0, vec![]);
    assert!(matches!(r, Err(Trap::StackOverflow)));
}

#[test]
fn out_of_fuel_traps() {
    let mut config = Config::new();
    config.consume_fuel(true);
    let mut engine = Engine::new(&config);
    let mut store = Store::new(&mut engine);
    store.set_fuel(3).unwrap();
    let module = Module {
        imports: vec![],
        funcs: vec![FuncDef {
            name: None,
            n_params: 0,
            n_locals: 0,
            n_results: 1,
            code: vec![
                Instr::I32Const(1),
                Instr::I32Const(2),
                Instr::I32Add,
                Instr::I32Const(3),
                Instr::I32Add,
            ],
        }],
        globals: vec![],
    };
    let instance = Instance::new(&mut store, module);
    let r = instance.invoke(&mut store, &mut NoHost, 0, vec![]);
    assert!(matches!(r, Err(Trap::OutOfFuel)));
    assert_eq!(store.get_fuel().unwrap(), 0);
    assert_eq!(Trap::OutOfFuel.message(), "all fuel consumed");
}

#[test]
fn fuel_api_rejected_when_not_metering() {
    let mut engine = Engine::default();
    let mut store = Store::new(&mut engine);
    assert!(matches!(store.set_fuel(10), Err(Trap::FuelNotEnabled)));
    assert!(matches!(store.get_fuel(), Err(Trap::FuelNotEnabled)));
    assert_eq!(
        Trap::FuelNotEnabled.message(),
        "fuel is not configured in this store"
    );
}

#[test]
fn host_error_propagates_unchanged() {
    let mut engine = Engine::default();
    let mut store = Store::new(&mut engine);
    let instance = Instance::new(&mut store, single_func_module(vec![Instr::CallHost(0)], 0, 0));
    let r = instance.invoke(&mut store, &mut FailingHost, 0, vec![]);
    match r {
        Err(Trap::HostError(m)) => assert_eq!(m, "boom"),
        _ => panic!("host error should propagate unchanged"),
    }
    assert!(!store.is_execution_paused());
}

#[test]
fn trap_messages() {
    assert_eq!(Trap::SuspendedSignal.message(), "execution paused");
    assert_eq!(Trap::InvalidResumeState.message(), "invalid resume state");
    assert_eq!(Trap::MismatchedContext.message(), "mismatched context");
    assert_eq!(Trap::StackOverflow.message(), "call stack exhausted");
    assert_eq!(Trap::InvalidProgram.message(), "malformed guest code or arguments");
    assert_eq!(Trap::HostError("boom".to_string()).message(), "boom");
}

#[test]
fn repeated_pause_after_resume() {
    // Each resume may itself pause again before final completion.
    struct PauseTwice {
        calls: u32,
    }
    impl HostHandler for PauseTwice {
        fn host_call(
            &mut self,
            caller: &mut Caller,
            _import: usize,
            _args: &Vec<Val>,
        ) -> Result<Vec<Val>, Trap> {
            self.calls += 1;
            assert!(
                caller.get_fuel().is_err(),
                "this store does not meter, so the gauge reports that"
            );
            if self.calls <= 2 {
                caller.pause_execution()?;
            }
            Ok(vec![])
        }
    }
    let mut engine = Engine::default();
    let mut store = Store::new(&mut engine);
    store.set_pause_execution_no_unwind();
    let module = Module {
        imports: vec![HostImport { n_params: 0, n_results: 0 }],
        funcs: vec![FuncDef {
            name: None,
            n_params: 0,
            n_locals: 0,
            n_results: 1,
            code: vec![
                Instr::I32Const(5),
                Instr::CallHost(0),
                Instr::I32Const(6),
                Instr::I32Add,
                Instr::CallHost(0),
                Instr::I32Const(7),
                Instr::I32Add,
            ],
        }],
        globals: vec![],
    };
    let instance = Instance::new(&mut store, module);
    let mut handler = PauseTwice { calls: 0 };

    let r = instance.invoke(&mut store, &mut handler, 0, vec![]);
    assert!(matches!(r, Err(Trap::SuspendedSignal)));
    let first = store.capture_execution_handle().unwrap();

    // The first resume re-enters the host, which pauses again.
    let r = first.resume(&mut store, &mut handler);
    assert!(matches!(r, Err(Trap::SuspendedSignal)));
    assert!(store.is_execution_paused());
    assert!(!first.can_resume(&store), "the consumed handle stays invalid");

    let second = store.capture_execution_handle().unwrap();
    let r = second.resume(&mut store, &mut handler);
    assert_eq!(r.unwrap(), vec![Val::I32(18)]);
    assert!(!store.is_execution_paused());
    assert_eq!(handler.calls, 4);
}
