//! Capacity codes of the cartridge header: ROM size, RAM size, bank controller kind.
use vstd::prelude::*;

verus! {

/// Bytes in one kilobyte.
pub const KILOBYTE_BYTES: usize = 1024;

/// Bytes in one switchable ROM bank.
pub const ROM_BANK_BYTES: usize = 16384;

/// Errors raised while reading a cartridge image.
#[derive(Clone, Copy, Debug, PartialEq, Eq, Structural)]
pub enum CartErr {
    /// The component byte at the header's type offset is not in the table.
    UnknownComponents(u8),
    /// The ROM size code is not in the table.
    UnknownROMSize(usize),
    /// The RAM size code is not in the table.
    UnknownRAMSize(usize),
    /// The stored header checksum differs from the computed one: `(computed, stored)`.
    BadHeaderChecksum(u8, u8),
    /// A header region reaches past the end of the image.
    RegionOOB,
}

/// ROM capacity, named by its number of 16 KiB banks.
#[derive(Clone, Copy, Debug, PartialEq, Eq, Structural)]
pub enum ROMNum {
    N2,
    N4,
    N8,
    N16,
    N32,
    N64,
    N128,
    N72,
    N80,
    N96,
}

/// RAM capacity classes.
#[derive(Clone, Copy, Debug, PartialEq, Eq, Structural)]
pub enum RAMNum {
    /// No RAM.
    N0,
    /// 2 KiB.
    N1_2kB,
    /// 8 KiB.
    N1_8kB,
    /// 32 KiB (four banks of 8 KiB).
    N3,
    /// 128 KiB (sixteen banks of 8 KiB).
    N4,
}

/// Memory bank controller kinds.
#[derive(Clone, Copy, Debug, PartialEq, Eq, Structural)]
pub enum MBCNum {
    N1,
    N2,
    N3,
    N5,
}

/// The header code that names a ROM capacity.
pub open spec fn rom_code(n: ROMNum) -> usize {
    match n {
        ROMNum::N2 => 0,
        ROMNum::N4 => 1,
        ROMNum::N8 => 2,
        ROMNum::N16 => 3,
        ROMNum::N32 => 4,
        ROMNum::N64 => 5,
        ROMNum::N128 => 6,
        ROMNum::N72 => 0x52,
        ROMNum::N80 => 0x53,
        ROMNum::N96 => 0x54,
    }
}

/// The ROM capacity that a header code names, if any.
pub open spec fn rom_of_code(code: usize) -> Option<ROMNum> {
    if code == 0 {
        Some(ROMNum::N2)
    } else if code == 1 {
        Some(ROMNum::N4)
    } else if code == 2 {
        Some(ROMNum::N8)
    } else if code == 3 {
        Some(ROMNum::N16)
    } else if code == 4 {
        Some(ROMNum::N32)
    } else if code == 5 {
        Some(ROMNum::N64)
    } else if code == 6 {
        Some(ROMNum::N128)
    } else if code == 0x52 {
        Some(ROMNum::N72)
    } else if code == 0x53 {
        Some(ROMNum::N80)
    } else if code == 0x54 {
        Some(ROMNum::N96)
    } else {
        None
    }
}

/// Number of 16 KiB banks of a ROM capacity.
pub open spec fn rom_banks(n: ROMNum) -> nat {
    match n {
        ROMNum::N2 => 2,
        ROMNum::N4 => 4,
        ROMNum::N8 => 8,
        ROMNum::N16 => 16,
        ROMNum::N32 => 32,
        ROMNum::N64 => 64,
        ROMNum::N128 => 128,
        ROMNum::N72 => 72,
        ROMNum::N80 => 80,
        ROMNum::N96 => 96,
    }
}

/// The header code that names a RAM capacity.
pub open spec fn ram_code(n: RAMNum) -> usize {
    match n {
        RAMNum::N0 => 0,
        RAMNum::N1_2kB => 1,
        RAMNum::N1_8kB => 2,
        RAMNum::N3 => 3,
        RAMNum::N4 => 4,
    }
}

/// The RAM capacity that a header code names, if any.
pub open spec fn ram_of_code(code: usize) -> Option<RAMNum> {
    if code == 0 {
        Some(RAMNum::N0)
    } else if code == 1 {
        Some(RAMNum::N1_2kB)
    } else if code == 2 {
        Some(RAMNum::N1_8kB)
    } else if code == 3 {
        Some(RAMNum::N3)
    } else if code == 4 {
        Some(RAMNum::N4)
    } else {
        None
    }
}

/// Size in KiB of a RAM capacity.
pub open spec fn ram_kib(n: RAMNum) -> nat {
    match n {
        RAMNum::N0 => 0,
        RAMNum::N1_2kB => 2,
        RAMNum::N1_8kB => 8,
        RAMNum::N3 => 32,
        RAMNum::N4 => 128,
    }
}

/// The numeric kind of a bank controller.
pub open spec fn mbc_kind(n: MBCNum) -> u8 {
    match n {
        MBCNum::N1 => 1,
        MBCNum::N2 => 2,
        MBCNum::N3 => 3,
        MBCNum::N5 => 5,
    }
}

impl ROMNum {
    /// Capacity in bytes: the number of banks times 16 KiB.
    pub fn size_bytes(self) -> (r: usize)
        ensures
            r == rom_banks(self) * ROM_BANK_BYTES,
    {
        let banks: usize = match self {
            ROMNum::N2 => 2,
            ROMNum::N4 => 4,
            ROMNum::N8 => 8,
            ROMNum::N16 => 16,
            ROMNum::N32 => 32,
            ROMNum::N64 => 64,
            ROMNum::N128 => 128,
            ROMNum::N72 => 72,
            ROMNum::N80 => 80,
            ROMNum::N96 => 96,
        };
        banks * ROM_BANK_BYTES
    }
}

impl RAMNum {
    /// Capacity in bytes.
    pub fn size_bytes(self) -> (r: usize)
        ensures
            r == ram_kib(self) * KILOBYTE_BYTES,
    {
        match self {
            RAMNum::N0 => 0,
            RAMNum::N1_2kB => 2 * KILOBYTE_BYTES,
            RAMNum::N1_8kB => 8 * KILOBYTE_BYTES,
            RAMNum::N3 => 32 * KILOBYTE_BYTES,
            RAMNum::N4 => 128 * KILOBYTE_BYTES,
        }
    }
}

impl From<MBCNum> for u8 {
    fn from(n: MBCNum) -> (r: u8) {
        match n {
            MBCNum::N1 => 1,
            MBCNum::N2 => 2,
            MBCNum::N3 => 3,
            MBCNum::N5 => 5,
        }
    }
}

impl vstd::std_specs::convert::FromSpecImpl<MBCNum> for u8 {
    open spec fn obeys_from_spec() -> bool {
        true
    }

    open spec fn from_spec(n: MBCNum) -> u8 {
        mbc_kind(n)
    }
}

impl From<ROMNum> for usize {
    fn from(n: ROMNum) -> (r: usize) {
        match n {
            ROMNum::N2 => 0,
            ROMNum::N4 => 1,
            ROMNum::N8 => 2,
            ROMNum::N16 => 3,
            ROMNum::N32 => 4,
            ROMNum::N64 => 5,
            ROMNum::N128 => 6,
            ROMNum::N72 => 0x52,
            ROMNum::N80 => 0x53,
            ROMNum::N96 => 0x54,
        }
    }
}

impl vstd::std_specs::convert::FromSpecImpl<ROMNum> for usize {
    open spec fn obeys_from_spec() -> bool {
        true
    }

    open spec fn from_spec(n: ROMNum) -> usize {
        rom_code(n)
    }
}

impl TryFrom<usize> for ROMNum {
    type Error = CartErr;

    fn try_from(code: usize) -> (r: Result<ROMNum, CartErr>) {
        match code {
            0 => Ok(ROMNum::N2),
            1 => Ok(ROMNum::N4),
            2 => Ok(ROMNum::N8),
            3 => Ok(ROMNum::N16),
            4 => Ok(ROMNum::N32),
            5 => Ok(ROMNum::N64),
            6 => Ok(ROMNum::N128),
            0x52 => Ok(ROMNum::N72),
            0x53 => Ok(ROMNum::N80),
            0x54 => Ok(ROMNum::N96),
            _ => Err(CartErr::UnknownROMSize(code)),
        }
    }
}

impl vstd::std_specs::convert::TryFromSpecImpl<usize> for ROMNum {
    open spec fn obeys_try_from_spec() -> bool {
        true
    }

    open spec fn try_from_spec(code: usize) -> Result<ROMNum, CartErr> {
        match rom_of_code(code) {
            Some(n) => Ok(n),
            None => Err(CartErr::UnknownROMSize(code)),
        }
    }
}

impl From<RAMNum> for usize {
    fn from(n: RAMNum) -> (r: usize) {
        match n {
            RAMNum::N0 => 0,
            RAMNum::N1_2kB => 1,
            RAMNum::N1_8kB => 2,
            RAMNum::N3 => 3,
            RAMNum::N4 => 4,
        }
    }
}

impl vstd::std_specs::convert::FromSpecImpl<RAMNum> for usize {
    open spec fn obeys_from_spec() -> bool {
        true
    }

    open spec fn from_spec(n: RAMNum) -> usize {
        ram_code(n)
    }
}

impl TryFrom<usize> for RAMNum {
    type Error = CartErr;

    fn try_from(code: usize) -> (r: Result<RAMNum, CartErr>) {
        match code {
            0 => Ok(RAMNum::N0),
            1 => Ok(RAMNum::N1_2kB),
            2 => Ok(RAMNum::N1_8kB),
            3 => Ok(RAMNum::N3),
            4 => Ok(RAMNum::N4),
            _ => Err(CartErr::UnknownRAMSize(code)),
        }
    }
}

impl vstd::std_specs::convert::TryFromSpecImpl<usize> for RAMNum {
    open spec fn obeys_try_from_spec() -> bool {
        true
    }

    open spec fn try_from_spec(code: usize) -> Result<RAMNum, CartErr> {
        match ram_of_code(code) {
            Some(n) => Ok(n),
            None => Err(CartErr::UnknownRAMSize(code)),
        }
    }
}

/// Reading a ROM size code and writing the capacity back gives the same code,
/// and every capacity reads back from its own code; codes outside the table read
/// as nothing.
pub proof fn lemma_rom_code_round_trip(code: usize, n: ROMNum)
    ensures
        rom_of_code(rom_code(n)) == Some(n),
        rom_of_code(code) matches Some(m) ==> rom_code(m) == code,
        rom_of_code(code) is None <==> !(code <= 6 || (0x52 <= code && code <= 0x54)),
{
}

/// Reading a RAM size code and writing the capacity back gives the same code,
/// and every capacity reads back from its own code; codes outside the table read
/// as nothing.
pub proof fn lemma_ram_code_round_trip(code: usize, n: RAMNum)
    ensures
        ram_of_code(ram_code(n)) == Some(n),
        ram_of_code(code) matches Some(m) ==> ram_code(m) == code,
        ram_of_code(code) is None <==> code > 4,
{
}

} // verus!
