use vstd::prelude::*;

verus! {

/// Count of elapsed clock ticks, produced by every executed instruction and
/// by every interrupt-service action, and consumed by the external pacing
/// loop.
#[derive(Clone, Copy, PartialEq, Eq, Structural, Debug)]
pub struct Cycles(pub u32);

} // verus!
