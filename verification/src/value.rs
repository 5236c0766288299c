use vstd::prelude::*;

verus! {

/// A guest-level scalar value: what the operand stack, the locals and the
/// globals of a guest activation hold, and what crosses the host boundary.
#[derive(Clone, Copy, PartialEq, Eq, Structural, Debug)]
pub enum Val {
    I32(i32),
    I64(i64),
}

} // verus!
