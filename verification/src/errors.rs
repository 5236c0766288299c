use vstd::prelude::*;

verus! {

/// Every way a top-level call, a resume, or a metering query can fail to
/// produce ordinary result values.
///
/// `SuspendedSignal` is not a failure: it is the designed-for unwind path
/// that tells the top-level call site that execution paused.  When capture
/// mode is enabled it is always paired with a live registry entry.
#[derive(Debug)]
pub enum Trap {
    /// The distinguished "paused" signal: the call unwound because a host
    /// function requested suspension.
    SuspendedSignal,
    /// A resume was attempted with a handle that is stale, already consumed,
    /// foreign to the live registry entry, or carries zero addresses.
    InvalidResumeState,
    /// A resume was attempted against a context other than the one the
    /// handle was drawn from, as far as the engine-scoped context identity
    /// tells them apart.
    MismatchedContext,
    /// The metering budget was exhausted during execution.
    OutOfFuel,
    /// A metering operation was used on a context whose engine does not
    /// meter execution.
    FuelNotEnabled,
    /// The guest call chain exceeded the supported activation depth.
    StackOverflow,
    /// Malformed guest code or malformed arguments: an out-of-range index,
    /// an operand-stack underflow, an operand of the wrong type, or a value
    /// sequence whose arity does not match the function it is for.
    InvalidProgram,
    /// A host function reported a failure of its own; the message is
    /// propagated unchanged.
    HostError(String),
}

impl Trap {
    /// A human-readable description of the trap.
    pub fn message(&self) -> (r: String)
        ensures
            self is SuspendedSignal ==> r@ == "execution paused"@,
            self is InvalidResumeState ==> r@ == "invalid resume state"@,
            self is MismatchedContext ==> r@ == "mismatched context"@,
            self is OutOfFuel ==> r@ == "all fuel consumed"@,
            self is FuelNotEnabled ==> r@ == "fuel is not configured in this store"@,
            self is StackOverflow ==> r@ == "call stack exhausted"@,
            self is InvalidProgram ==> r@ == "malformed guest code or arguments"@,
            forall|m: String| *self == Trap::HostError(m) ==> r@ == m@,
    {
        match self {
            Trap::SuspendedSignal => "execution paused".to_owned(),
            Trap::InvalidResumeState => "invalid resume state".to_owned(),
            Trap::MismatchedContext => "mismatched context".to_owned(),
            Trap::OutOfFuel => "all fuel consumed".to_owned(),
            Trap::FuelNotEnabled => "fuel is not configured in this store".to_owned(),
            Trap::StackOverflow => "call stack exhausted".to_owned(),
            Trap::InvalidProgram => "malformed guest code or arguments".to_owned(),
            Trap::HostError(m) => m.clone(),
        }
    }
}

} // verus!
