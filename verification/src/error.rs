use vstd::prelude::*;

verus! {

/// Failure taxonomy of the engine. Every failure is fatal to the call that
/// raised it; the engine never retries.
#[derive(Clone, Copy, Debug, PartialEq, Eq, Structural)]
pub enum EngineError {
    /// The device could not satisfy an allocation request: the request was
    /// for zero bytes or for more bytes than the device capacity limit.
    AllocationFailed,
    /// A kernel dispatch was rejected because a required argument was
    /// unbound, bound to a freed buffer, or bound to a buffer of the wrong
    /// size for the dispatch domain.
    KernelDispatchFailed,
    /// A device-to-host copy was requested from a buffer that is not live.
    ReadbackFailed,
    /// A caller-side precondition did not hold; the call changed nothing.
    PreconditionFailed,
}

} // verus!
