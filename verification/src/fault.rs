use vstd::prelude::*;

verus! {

/// A fatal condition met while executing: continuing past either of these
/// would silently corrupt the emulated state, so the dispatcher stops and
/// reports the exact opcode or address together with where it happened.
#[derive(Clone, Copy, PartialEq, Eq, Structural, Debug)]
pub enum Fault {
    /// An opcode byte with no entry in the base opcode table, together
    /// with the program-counter address it was fetched from.
    UnimplementedOpcode { opcode: u8, pc: u16 },
    /// A bus access to an address outside every mapped region, under the
    /// strict bus policy.
    UnmappedAddress { address: u16 },
}

} // verus!
