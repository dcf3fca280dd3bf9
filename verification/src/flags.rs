use vstd::prelude::*;

verus! {

/// Processor status flags: zero (Z), subtract (N), half-carry (H),
/// carry (C).
///
/// On the machine these four bits occupy the high nibble of the flags
/// register and the low nibble always reads as zero.  Modelling each bit as
/// a boolean keeps that invariant by construction: `to_byte` can only
/// produce bytes whose low nibble is clear, and `from_byte` discards the
/// low nibble of whatever byte is written.
#[derive(Clone, Copy, PartialEq, Eq, Structural, Debug)]
pub struct Flags {
    pub z: bool,
    pub n: bool,
    pub h: bool,
    pub c: bool,
}

impl Flags {
    /// All four flags clear.
    pub fn empty() -> (r: Flags)
        ensures
            r == (Flags { z: false, n: false, h: false, c: false }),
    {
        Flags { z: false, n: false, h: false, c: false }
    }

    /// The byte the flags register reads as: Z at bit 7, N at bit 6, H at
    /// bit 5, C at bit 4, low nibble clear.
    pub open spec fn spec_to_byte(self) -> u8 {
        ((if self.z {
            0x80int
        } else {
            0int
        }) + (if self.n {
            0x40int
        } else {
            0int
        }) + (if self.h {
            0x20int
        } else {
            0int
        }) + (if self.c {
            0x10int
        } else {
            0int
        })) as u8
    }

    pub fn to_byte(&self) -> (r: u8)
        ensures
            r == self.spec_to_byte(),
            r % 16 == 0,
    {
        (if self.z {
            0x80u8
        } else {
            0u8
        }) + (if self.n {
            0x40u8
        } else {
            0u8
        }) + (if self.h {
            0x20u8
        } else {
            0u8
        }) + (if self.c {
            0x10u8
        } else {
            0u8
        })
    }

    /// The flags encoded in a byte; the low nibble carries no flag and is
    /// ignored.
    pub open spec fn spec_from_byte(b: u8) -> Flags {
        Flags { z: b / 128 % 2 == 1, n: b / 64 % 2 == 1, h: b / 32 % 2 == 1, c: b / 16 % 2 == 1 }
    }

    pub fn from_byte(b: u8) -> (r: Flags)
        ensures
            r == Flags::spec_from_byte(b),
    {
        Flags { z: b / 128 % 2 == 1, n: b / 64 % 2 == 1, h: b / 32 % 2 == 1, c: b / 16 % 2 == 1 }
    }
}

/// The byte encoding of the flags register is faithful: encoding four flag
/// bits as a byte and decoding that byte recovers the same flags.
pub proof fn lemma_flags_byte_roundtrip(f: Flags)
    ensures
        Flags::spec_from_byte(f.spec_to_byte()) == f,
{
}

/// Decoding a byte and re-encoding the flags keeps exactly the high nibble:
/// the low four bits are masked off on every write to the flags register.
pub proof fn lemma_flags_byte_masks_low_nibble(b: u8)
    ensures
        Flags::spec_from_byte(b).spec_to_byte() == b / 16 * 16,
{
}

} // verus!
