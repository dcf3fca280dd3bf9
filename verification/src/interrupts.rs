use vstd::prelude::*;

verus! {

/// The five interrupt sources, listed in priority order: VBLANK is served
/// first, JOYPAD last.
#[derive(Clone, Copy, PartialEq, Eq, Structural, Debug)]
pub enum Interrupt {
    VBlank,
    Lcd,
    Timer,
    Serial,
    Joypad,
}

impl Interrupt {
    /// The bit this source occupies in the request and enable registers.
    pub open spec fn spec_mask(self) -> u8 {
        match self {
            Interrupt::VBlank => 0x01,
            Interrupt::Lcd => 0x02,
            Interrupt::Timer => 0x04,
            Interrupt::Serial => 0x08,
            Interrupt::Joypad => 0x10,
        }
    }

    pub fn mask(self) -> (r: u8)
        ensures
            r == self.spec_mask(),
    {
        match self {
            Interrupt::VBlank => 0x01,
            Interrupt::Lcd => 0x02,
            Interrupt::Timer => 0x04,
            Interrupt::Serial => 0x08,
            Interrupt::Joypad => 0x10,
        }
    }

    /// The fixed address the program counter jumps to when this source is
    /// serviced.
    pub open spec fn spec_vector(self) -> u16 {
        match self {
            Interrupt::VBlank => 0x40,
            Interrupt::Lcd => 0x48,
            Interrupt::Timer => 0x50,
            Interrupt::Serial => 0x58,
            Interrupt::Joypad => 0x60,
        }
    }

    pub fn vector(self) -> (r: u16)
        ensures
            r == self.spec_vector(),
    {
        match self {
            Interrupt::VBlank => 0x40,
            Interrupt::Lcd => 0x48,
            Interrupt::Timer => 0x50,
            Interrupt::Serial => 0x58,
            Interrupt::Joypad => 0x60,
        }
    }
}

/// The set of interrupts that are both requested and enabled; only the low
/// five bits of the two registers take part.
pub open spec fn spec_pending(iflag: u8, ienable: u8) -> u8 {
    iflag & ienable & 0x1f
}

/// The highest-priority interrupt in a pending set, under the fixed order
/// VBLANK > LCD > TIMER > SERIAL > JOYPAD; `None` when no bit of the low
/// five is set.
pub open spec fn spec_highest_priority(p: u8) -> Option<Interrupt> {
    if p & 0x01 != 0 {
        Some(Interrupt::VBlank)
    } else if p & 0x02 != 0 {
        Some(Interrupt::Lcd)
    } else if p & 0x04 != 0 {
        Some(Interrupt::Timer)
    } else if p & 0x08 != 0 {
        Some(Interrupt::Serial)
    } else if p & 0x10 != 0 {
        Some(Interrupt::Joypad)
    } else {
        None
    }
}

pub fn highest_priority(p: u8) -> (r: Option<Interrupt>)
    ensures
        r == spec_highest_priority(p),
{
    if p & 0x01 != 0 {
        Some(Interrupt::VBlank)
    } else if p & 0x02 != 0 {
        Some(Interrupt::Lcd)
    } else if p & 0x04 != 0 {
        Some(Interrupt::Timer)
    } else if p & 0x08 != 0 {
        Some(Interrupt::Serial)
    } else if p & 0x10 != 0 {
        Some(Interrupt::Joypad)
    } else {
        None
    }
}

/// A non-empty pending set always resolves to some interrupt: the pending
/// set only holds bits in the low five positions, and priority resolution
/// inspects all five.
pub proof fn lemma_pending_resolves(iflag: u8, ienable: u8)
    ensures
        spec_pending(iflag, ienable) != 0 ==> spec_highest_priority(
            spec_pending(iflag, ienable),
        ) is Some,
{
    let p = spec_pending(iflag, ienable);
    assert(p == (iflag & ienable & 0x1f) && (p & 0x01 == 0 && p & 0x02 == 0 && p & 0x04 == 0 && p
        & 0x08 == 0 && p & 0x10 == 0) ==> p == 0) by (bit_vector);
}

} // verus!
