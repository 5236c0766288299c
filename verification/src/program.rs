use vstd::prelude::*;

use crate::value::Val;

verus! {

/// One guest instruction.
///
/// The instruction set is straight-line: there are no backward edges, so
/// within a single activation the program counter only ever advances.  The
/// only suspension points are `CallHost` boundaries — control never pauses
/// in the middle of guest-only execution.
#[derive(Clone, Copy, PartialEq, Eq, Structural, Debug)]
pub enum Instr {
    /// Push a 32-bit constant onto the operand stack.
    I32Const(i32),
    /// Push a 64-bit constant onto the operand stack.
    I64Const(i64),
    /// Pop two 32-bit values and push their wrapping sum.
    I32Add,
    /// Pop two 64-bit values and push their wrapping sum.
    I64Add,
    /// Push the value of a local slot.
    LocalGet(usize),
    /// Pop a value into a local slot.
    LocalSet(usize),
    /// Push the value of a global of the owning instance.
    GlobalGet(usize),
    /// Pop a value into a global of the owning instance.
    GlobalSet(usize),
    /// Call another guest function of the same module.
    Call(usize),
    /// Call an imported host function: the only place execution can suspend.
    CallHost(usize),
}

/// The shape of a host function a module imports.  Only arities are tracked;
/// the host boundary passes untyped scalar values.
#[derive(Clone, Copy, PartialEq, Eq, Structural, Debug)]
pub struct HostImport {
    pub n_params: usize,
    pub n_results: usize,
}

/// A guest function: an optional symbolic name (used only for diagnostic
/// call stacks), its parameter count, the number of additional zero-
/// initialized locals, its result arity, and its body.
pub struct FuncDef {
    pub name: Option<String>,
    pub n_params: usize,
    pub n_locals: usize,
    pub n_results: usize,
    pub code: Vec<Instr>,
}

/// A guest module: host imports, function bodies and initial global values.
/// Instantiating a module copies the globals into the owning context.
pub struct Module {
    pub imports: Vec<HostImport>,
    pub funcs: Vec<FuncDef>,
    pub globals: Vec<Val>,
}

/// The symbolic content of an optional function name.
pub open spec fn opt_name_view(n: Option<String>) -> Option<Seq<char>> {
    match n {
        Some(s) => Some(s@),
        None => None,
    }
}

/// Copies an optional function name.
pub fn dup_name(n: &Option<String>) -> (r: Option<String>)
    ensures
        r == *n,
{
    match n {
        Some(s) => Some(s.clone()),
        None => None,
    }
}

} // verus!
