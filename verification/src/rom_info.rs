use vstd::prelude::*;

verus! {

/// The cartridge's bank-switching scheme, read from the header type byte.
/// Bank switching itself is the cartridge collaborator's affair; the core
/// only classifies the byte.
#[derive(Clone, Copy, PartialEq, Eq, Structural, Debug)]
pub enum MbcType {
    NoMBC,
    MBC1,
    MBC2,
    MMM01,
    MBC3,
    MBC4,
    MBC5,
    Unknown,
}

/// The bank-switching scheme a header type byte names.
pub open spec fn spec_mbc_type(code: u8) -> MbcType {
    if code == 0x00 || code == 0x08 || code == 0x09 {
        MbcType::NoMBC
    } else if 0x01 <= code <= 0x03 {
        MbcType::MBC1
    } else if code == 0x05 || code == 0x06 {
        MbcType::MBC2
    } else if 0x0b <= code <= 0x0d {
        MbcType::MMM01
    } else if 0x0f <= code <= 0x13 {
        MbcType::MBC3
    } else if 0x15 <= code <= 0x17 {
        MbcType::MBC4
    } else if 0x19 <= code <= 0x1e {
        MbcType::MBC5
    } else {
        MbcType::Unknown
    }
}

/// The title: the given bytes up to, and not including, the first zero.
pub open spec fn spec_title(bytes: Seq<u8>) -> Seq<u8>
    decreases bytes.len(),
{
    if bytes.len() == 0 {
        Seq::empty()
    } else if bytes[0] == 0 {
        Seq::empty()
    } else {
        seq![bytes[0]] + spec_title(bytes.drop_first())
    }
}

/// When the first `k` bytes are non-zero and the byte after them (if any)
/// is zero, the title is exactly those `k` bytes.
pub proof fn lemma_title_prefix(bytes: Seq<u8>, k: int)
    requires
        0 <= k <= bytes.len(),
        forall|j: int| 0 <= j < k ==> bytes[j] != 0,
        k == bytes.len() || bytes[k] == 0,
    ensures
        spec_title(bytes) == bytes.subrange(0, k),
    decreases k,
{
    if k == 0 {
        if bytes.len() == 0 {
            assert(spec_title(bytes) =~= bytes.subrange(0, 0));
        } else {
            assert(bytes[0] == 0);
            assert(spec_title(bytes) =~= bytes.subrange(0, 0));
        }
    } else {
        assert(bytes[0] != 0);
        lemma_title_prefix(bytes.drop_first(), k - 1);
        assert(seq![bytes[0]] + bytes.drop_first().subrange(0, k - 1) =~= bytes.subrange(0, k));
    }
}

/// The fields of the cartridge header that this core reads.
pub struct RomInfo {
    /// The title bytes of the header (addresses 0x134-0x143), up to the
    /// first zero byte.
    pub title: Vec<u8>,
    pub mbc_type: MbcType,
    /// The header checksum byte (address 0x14D); it seeds the register
    /// file's power-on flags.
    pub checksum: u8,
}

impl RomInfo {
    /// Reads the header fields out of a cartridge image, which must reach
    /// through the checksum byte at 0x14D — nothing past that index is
    /// read.
    pub fn new(rom: &[u8]) -> (r: RomInfo)
        requires
            rom@.len() >= 0x14e,
        ensures
            r.title@ == spec_title(rom@.subrange(0x134, 0x144)),
            r.mbc_type == spec_mbc_type(rom@[0x147]),
            r.checksum == rom@[0x14d],
    {
        let mut n: usize = 0;
        while n < 16 && rom[0x134 + n] != 0
            invariant
                n <= 16,
                rom@.len() >= 0x14e,
                forall|j: int| 0 <= j < n ==> #[trigger] rom@[0x134 + j] != 0,
            decreases 16 - n,
        {
            n += 1;
        }
        proof {
            let bytes = rom@.subrange(0x134, 0x144);
            assert forall|j: int| 0 <= j < n implies bytes[j] != 0 by {
                assert(rom@[0x134 + j] != 0);
            }
            lemma_title_prefix(bytes, n as int);
        }
        let mut title: Vec<u8> = Vec::new();
        let mut i: usize = 0;
        while i < n
            invariant
                i <= n <= 16,
                rom@.len() >= 0x14e,
                title@ =~= rom@.subrange(0x134, 0x134 + i),
            decreases n - i,
        {
            title.push(rom[0x134 + i]);
            assert(title@ =~= rom@.subrange(0x134, 0x134 + i + 1));
            i += 1;
        }
        assert(title@ =~= rom@.subrange(0x134, 0x144).subrange(0, n as int));

        let code = rom[0x147];
        let mbc_type = if code == 0x00 || code == 0x08 || code == 0x09 {
            MbcType::NoMBC
        } else if 0x01 <= code && code <= 0x03 {
            MbcType::MBC1
        } else if code == 0x05 || code == 0x06 {
            MbcType::MBC2
        } else if 0x0b <= code && code <= 0x0d {
            MbcType::MMM01
        } else if 0x0f <= code && code <= 0x13 {
            MbcType::MBC3
        } else if 0x15 <= code && code <= 0x17 {
            MbcType::MBC4
        } else if 0x19 <= code && code <= 0x1e {
            MbcType::MBC5
        } else {
            MbcType::Unknown
        };

        RomInfo { title, mbc_type, checksum: rom[0x14d] }
    }
}

} // verus!
