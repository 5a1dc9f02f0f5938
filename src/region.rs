//! Fixed byte ranges of the cartridge header and their bounds-checked extraction.
use vstd::prelude::*;

use crate::capacity::CartErr;

verus! {

/// A byte range `[start, end)` of the cartridge address space.
#[derive(Clone, Copy, Debug, PartialEq, Eq, Structural)]
pub struct Region(pub usize, pub usize);

/// Start of the 16-byte title field.
pub const TITLE_START: usize = 0x134;
/// End (exclusive) of the title field.
pub const TITLE_END: usize = 0x144;
/// Offset of the color-mode flag byte.
pub const CGB_FLAG: usize = 0x143;
/// Offset of the super-mode flag byte.
pub const SGB_FLAG: usize = 0x146;
/// Offset of the component (cartridge type) byte.
pub const COMPONENTS: usize = 0x147;
/// Offset of the ROM size code.
pub const ROM_SIZE: usize = 0x148;
/// Offset of the RAM size code.
pub const RAM_SIZE: usize = 0x149;
/// Start of the bytes that the header checksum covers.
pub const CHECKSUM_START: usize = 0x134;
/// End (exclusive) of the bytes that the header checksum covers.
pub const CHECKSUM_END: usize = 0x14D;
/// Offset of the stored header checksum.
pub const CHECKSUM_HDR: usize = 0x14D;

impl Region {
    /// The region lies inside a buffer of `len` bytes.
    pub open spec fn fits(self, len: int) -> bool {
        self.0 <= self.1 && self.1 <= len
    }

    /// Whether the region lies inside a buffer of `len` bytes.
    pub fn is_in_bounds(&self, len: usize) -> (r: bool)
        ensures
            r == self.fits(len as int),
    {
        self.0 <= self.1 && self.1 <= len
    }

    /// The bytes of `bytes` that the region covers, or `RegionOOB` where it
    /// reaches past the end.
    pub fn extract<'a>(&self, bytes: &'a [u8]) -> (r: Result<&'a [u8], CartErr>)
        ensures
            self.fits(bytes@.len() as int) ==> (r matches Ok(s) && s@ == bytes@.subrange(
                self.0 as int,
                self.1 as int,
            )),
            !self.fits(bytes@.len() as int) ==> r == Err::<&[u8], CartErr>(CartErr::RegionOOB),
    {
        if self.is_in_bounds(bytes.len()) {
            Ok(&bytes[self.0..self.1])
        } else {
            Err(CartErr::RegionOOB)
        }
    }

    /// The first byte of the region, or `RegionOOB` where the region is empty
    /// or reaches past the end.
    pub fn read_u8(&self, bytes: &[u8]) -> (r: Result<u8, CartErr>)
        ensures
            self.fits(bytes@.len() as int) && self.0 < self.1 ==> r == Ok::<u8, CartErr>(
                bytes@[self.0 as int],
            ),
            !(self.fits(bytes@.len() as int) && self.0 < self.1) ==> r == Err::<u8, CartErr>(
                CartErr::RegionOOB,
            ),
    {
        let s = self.extract(bytes)?;
        if s.len() == 0 {
            Err(CartErr::RegionOOB)
        } else {
            Ok(s[0])
        }
    }
}

} // verus!
