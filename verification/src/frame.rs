use vstd::prelude::*;

use crate::value::Val;

verus! {

/// One guest activation record.
///
/// Locals and operand-stack slots are materialized here, in memory owned by
/// the execution context, rather than held in transient machine state.  That
/// convention is what makes suspension cheap: a snapshot only needs to
/// remember *where* the activation lives, never a copy of its contents.
pub struct Frame {
    /// Index of the guest function this activation executes.
    pub func: usize,
    /// Index of the next instruction to execute in that function's body.
    pub pc: usize,
    /// Parameter and declared-local slots.
    pub locals: Vec<Val>,
    /// Operand stack, innermost value last.
    pub stack: Vec<Val>,
}

/// The mathematical model of an activation record.
pub struct FrameModel {
    pub func: nat,
    pub pc: nat,
    pub locals: Seq<Val>,
    pub stack: Seq<Val>,
}

impl View for Frame {
    type V = FrameModel;

    open spec fn view(&self) -> FrameModel {
        FrameModel {
            func: self.func as nat,
            pc: self.pc as nat,
            locals: self.locals@,
            stack: self.stack@,
        }
    }
}

} // verus!
