//! Execution-suspension core of a natively-compiled WebAssembly virtual
//! machine.
//!
//! A host function invoked synchronously from running guest code may request
//! that the entire in-flight call be suspended rather than completed or
//! aborted.  The core captures a snapshot of the suspended activation —
//! resume address, frame base, sampled metering budget and a diagnostic call
//! stack — hands it to the embedder as a single-use capability, and can later
//! reconstruct the execution environment and let the call run to completion,
//! a trap, or a further pause.
//!
//! The compiler pipeline that produces guest code, bytecode validation and
//! module instantiation plumbing are external collaborators; this crate
//! models guest activations as frames whose locals and operand-stack slots
//! are materialized in memory owned by the execution context, which is
//! exactly the convention the suspension mechanism relies on.
//!
//! Guest-addressable state is modeled as locals, operand stacks and
//! per-instance globals.  Byte-addressed linear memory is context-owned
//! state of exactly the same kind as the globals — the pause machinery
//! neither copies nor touches it, so its preservation across a
//! pause/resume cycle rests on the same single-owner argument that the
//! globals make explicit here — and it is deliberately not part of the
//! instruction model.
//!
//! The contracts pin the registry and capability lifecycle down exactly
//! (single outstanding suspension, instance scoping, single-use handles,
//! failure-atomic resume validation, monotone metering), tie every
//! straight-line instruction to a small-step semantics, and prove the
//! engine equal to a reference interpreter on deterministic fragments: a
//! call-free body computes exactly its reference run, a suspension on a
//! body whose only call is one host call captures exactly the reference
//! prefix state, and an override resume of a single-frame suspension
//! computes exactly the reference continuation from the captured frame.

pub mod engine;
pub mod errors;
pub mod frame;
pub mod handle;
pub mod instance;
pub mod laws;
pub mod machine;
pub mod store;
pub mod paused;
pub mod program;
pub mod registry;
pub mod value;

pub use engine::{Caller, HostHandler, MAX_CALL_DEPTH};
pub use errors::Trap;
pub use frame::Frame;
pub use handle::ExecutionHandle;
pub use instance::Instance;
pub use paused::{FrameEntry, PausedState};
pub use program::{FuncDef, HostImport, Instr, Module};
pub use store::{Config, Engine, Store};
pub use value::Val;
