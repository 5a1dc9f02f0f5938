//! The cartridge header: title, components on the board, mode flags, checksum.
use vstd::prelude::*;

use crate::capacity::{
    CartErr, MBCNum, RAMNum, ROMNum, ram_of_code, rom_of_code,
};
use crate::region::{
    CGB_FLAG, CHECKSUM_END, CHECKSUM_HDR, CHECKSUM_START, COMPONENTS, RAM_SIZE, ROM_SIZE, Region,
    SGB_FLAG, TITLE_END, TITLE_START,
};

verus! {

/// Hardware present on a cartridge board.
#[derive(Clone, Copy, Debug, PartialEq, Eq, Structural)]
pub enum Component {
    ROM(ROMNum),
    MBC(MBCNum),
    Battery,
    /// Memory management module.
    MMM,
    RAM(RAMNum),
    SRAM,
    Timer,
    Rumble,
    PocketCam,
    BandaiTAMA5,
    HudsonHUC1,
    HudsonHUC3,
}

/// The text that `String::from_utf8_lossy` makes of a byte sequence.
pub uninterp spec fn lossy_text(b: Seq<u8>) -> Seq<char>;

/// Relies on `String::from_utf8_lossy`: the text depends on the bytes alone.
#[verifier::external_body]
fn text_from_bytes(b: &[u8]) -> (r: String)
    ensures
        r@ == lossy_text(b@),
{
    String::from_utf8_lossy(b).into_owned()
}

/// The ordered component list that a header type byte names, given the decoded
/// ROM and RAM capacities; `None` for a byte outside the table.
pub open spec fn components_of(code: u8, rom: ROMNum, ram: RAMNum) -> Option<Seq<Component>> {
    let r = Component::ROM(rom);
    let m = Component::RAM(ram);
    if code == 0x00 {
        Some(seq![r])
    } else if code == 0x01 {
        Some(seq![r, Component::MBC(MBCNum::N1)])
    } else if code == 0x02 {
        Some(seq![r, Component::MBC(MBCNum::N1), m])
    } else if code == 0x03 {
        Some(seq![r, Component::MBC(MBCNum::N1), m, Component::Battery])
    } else if code == 0x05 {
        Some(seq![r, Component::MBC(MBCNum::N2)])
    } else if code == 0x06 {
        Some(seq![r, Component::MBC(MBCNum::N2), Component::Battery])
    } else if code == 0x08 {
        Some(seq![r, m])
    } else if code == 0x0B {
        Some(seq![r, Component::MMM])
    } else if code == 0x0C {
        Some(seq![r, Component::MMM, Component::SRAM])
    } else if code == 0x0D {
        Some(seq![r, Component::MMM, Component::SRAM, Component::Battery])
    } else if code == 0x0F {
        Some(seq![r, Component::MBC(MBCNum::N3), Component::Timer, Component::Battery])
    } else if code == 0x10 {
        Some(seq![r, Component::MBC(MBCNum::N3), Component::Timer, m, Component::Battery])
    } else if code == 0x11 {
        Some(seq![r, Component::MBC(MBCNum::N3)])
    } else if code == 0x12 {
        Some(seq![r, Component::MBC(MBCNum::N3), m])
    } else if code == 0x13 {
        Some(seq![r, Component::MBC(MBCNum::N5), m, Component::Battery])
    } else if code == 0x19 {
        Some(seq![r, Component::MBC(MBCNum::N5)])
    } else if code == 0x1A {
        Some(seq![r, Component::MBC(MBCNum::N5), m])
    } else if code == 0x1B {
        Some(seq![r, Component::MBC(MBCNum::N5), m, Component::Battery])
    } else if code == 0x1C {
        Some(seq![r, Component::MBC(MBCNum::N5), Component::Rumble])
    } else if code == 0x1D {
        Some(seq![r, Component::MBC(MBCNum::N5), Component::Rumble, Component::SRAM])
    } else if code == 0x1E {
        Some(
            seq![
                r,
                Component::MBC(MBCNum::N5),
                Component::Rumble,
                Component::SRAM,
                Component::Battery,
            ],
        )
    } else if code == 0x1F {
        Some(seq![Component::PocketCam])
    } else if code == 0xFD {
        Some(seq![Component::BandaiTAMA5])
    } else if code == 0xFE {
        Some(seq![Component::HudsonHUC3])
    } else if code == 0xFF {
        Some(seq![Component::HudsonHUC1])
    } else {
        None
    }
}

/// What the components step of header decoding yields for an image: the
/// capacity codes are read first, then the type byte.
pub open spec fn components_result(b: Seq<u8>) -> Result<Seq<Component>, CartErr> {
    if b.len() <= ROM_SIZE {
        Err(CartErr::RegionOOB)
    } else {
        match rom_of_code(b[ROM_SIZE as int] as usize) {
            None => Err(CartErr::UnknownROMSize(b[ROM_SIZE as int] as usize)),
            Some(rom) => if b.len() <= RAM_SIZE {
                Err(CartErr::RegionOOB)
            } else {
                match ram_of_code(b[RAM_SIZE as int] as usize) {
                    None => Err(CartErr::UnknownRAMSize(b[RAM_SIZE as int] as usize)),
                    Some(ram) => match components_of(b[COMPONENTS as int], rom, ram) {
                        None => Err(CartErr::UnknownComponents(b[COMPONENTS as int])),
                        Some(cs) => Ok(cs),
                    },
                }
            },
        }
    }
}

/// The mathematical content of a decoded header.
pub struct CartridgeView {
    pub title: Seq<char>,
    pub is_cgb: bool,
    pub is_sgb: bool,
    pub rom: Seq<u8>,
    pub components: Seq<Component>,
}

/// Header decoding without checksum validation: all or nothing.
pub open spec fn parse_header(b: Seq<u8>) -> Result<CartridgeView, CartErr> {
    match components_result(b) {
        Err(e) => Err(e),
        Ok(cs) => Ok(
            CartridgeView {
                title: lossy_text(b.subrange(TITLE_START as int, TITLE_END as int)),
                is_cgb: b[CGB_FLAG as int] == 0x80,
                is_sgb: b[SGB_FLAG as int] == 0x03,
                rom: b,
                components: cs,
            },
        ),
    }
}

/// The running header checksum over `s`: each byte contributes `-(byte) - 1`.
pub open spec fn checksum_acc(s: Seq<u8>) -> int
    decreases s.len(),
{
    if s.len() == 0 {
        0
    } else {
        checksum_acc(s.drop_last()) - s.last() - 1
    }
}

/// The low eight bits of the running checksum.
pub open spec fn checksum_byte(s: Seq<u8>) -> u8 {
    (checksum_acc(s) % 256) as u8
}

/// Outcome of validating the stored header checksum of an image.
pub open spec fn header_sum_result(b: Seq<u8>) -> Result<(), CartErr> {
    if b.len() <= CHECKSUM_HDR {
        Err(CartErr::RegionOOB)
    } else {
        let computed = checksum_byte(b.subrange(CHECKSUM_START as int, CHECKSUM_END as int));
        let stored = b[CHECKSUM_HDR as int];
        if computed == stored {
            Ok(())
        } else {
            Err(CartErr::BadHeaderChecksum(computed, stored))
        }
    }
}

/// A loaded cartridge image.
#[derive(Debug)]
struct ROM {
    bytes: Vec<u8>,
}

impl ROM {
    fn from_raw_bytes(bytes: Vec<u8>) -> (r: ROM)
        ensures
            r.bytes@ == bytes@,
    {
        ROM { bytes }
    }

    /// The single byte at `offset`, or `RegionOOB` past the end.
    fn byte_at(&self, offset: usize) -> (r: Result<u8, CartErr>)
        requires
            offset < usize::MAX,
        ensures
            offset < self.bytes@.len() ==> r == Ok::<u8, CartErr>(self.bytes@[offset as int]),
            offset >= self.bytes@.len() ==> r == Err::<u8, CartErr>(CartErr::RegionOOB),
    {
        Region(offset, offset + 1).read_u8(self.bytes.as_slice())
    }
}

fn decode_rom_size(rom: &ROM) -> (r: Result<ROMNum, CartErr>)
    ensures
        rom.bytes@.len() <= ROM_SIZE ==> r == Err::<ROMNum, CartErr>(CartErr::RegionOOB),
        rom.bytes@.len() > ROM_SIZE ==> r == match rom_of_code(rom.bytes@[ROM_SIZE as int] as usize) {
            Some(n) => Ok(n),
            None => Err(CartErr::UnknownROMSize(rom.bytes@[ROM_SIZE as int] as usize)),
        },
{
    let code = rom.byte_at(ROM_SIZE)?;
    ROMNum::try_from(code as usize)
}

fn decode_ram_size(rom: &ROM) -> (r: Result<RAMNum, CartErr>)
    ensures
        rom.bytes@.len() <= RAM_SIZE ==> r == Err::<RAMNum, CartErr>(CartErr::RegionOOB),
        rom.bytes@.len() > RAM_SIZE ==> r == match ram_of_code(rom.bytes@[RAM_SIZE as int] as usize) {
            Some(n) => Ok(n),
            None => Err(CartErr::UnknownRAMSize(rom.bytes@[RAM_SIZE as int] as usize)),
        },
{
    let code = rom.byte_at(RAM_SIZE)?;
    RAMNum::try_from(code as usize)
}

/// The ordered component list that a type byte names, built from the decoded
/// capacities, or `UnknownComponents` for a byte outside the table.
pub fn components_for(code: u8, rom: ROMNum, ram: RAMNum) -> (r: Result<Vec<Component>, CartErr>)
    ensures
        components_of(code, rom, ram) matches Some(cs) ==> (r matches Ok(v) && v@ == cs),
        components_of(code, rom, ram) is None ==> r == Err::<Vec<Component>, CartErr>(
            CartErr::UnknownComponents(code),
        ),
{
    let r = Component::ROM(rom);
    let m = Component::RAM(ram);
    let comps = match code {
        0x00 => vec![r],
        0x01 => vec![r, Component::MBC(MBCNum::N1)],
        0x02 => vec![r, Component::MBC(MBCNum::N1), m],
        0x03 => vec![r, Component::MBC(MBCNum::N1), m, Component::Battery],
        0x05 => vec![r, Component::MBC(MBCNum::N2)],
        0x06 => vec![r, Component::MBC(MBCNum::N2), Component::Battery],
        0x08 => vec![r, m],
        0x0B => vec![r, Component::MMM],
        0x0C => vec![r, Component::MMM, Component::SRAM],
        0x0D => vec![r, Component::MMM, Component::SRAM, Component::Battery],
        0x0F => vec![r, Component::MBC(MBCNum::N3), Component::Timer, Component::Battery],
        0x10 => vec![r, Component::MBC(MBCNum::N3), Component::Timer, m, Component::Battery],
        0x11 => vec![r, Component::MBC(MBCNum::N3)],
        0x12 => vec![r, Component::MBC(MBCNum::N3), m],
        0x13 => vec![r, Component::MBC(MBCNum::N5), m, Component::Battery],
        0x19 => vec![r, Component::MBC(MBCNum::N5)],
        0x1A => vec![r, Component::MBC(MBCNum::N5), m],
        0x1B => vec![r, Component::MBC(MBCNum::N5), m, Component::Battery],
        0x1C => vec![r, Component::MBC(MBCNum::N5), Component::Rumble],
        0x1D => vec![r, Component::MBC(MBCNum::N5), Component::Rumble, Component::SRAM],
        0x1E => vec![
            r,
            Component::MBC(MBCNum::N5),
            Component::Rumble,
            Component::SRAM,
            Component::Battery,
        ],
        0x1F => vec![Component::PocketCam],
        0xFD => vec![Component::BandaiTAMA5],
        0xFE => vec![Component::HudsonHUC3],
        0xFF => vec![Component::HudsonHUC1],
        x => return Err(CartErr::UnknownComponents(x)),
    };
    Ok(comps)
}

fn decode_components(rom: &ROM) -> (r: Result<Vec<Component>, CartErr>)
    ensures
        components_result(rom.bytes@) matches Ok(cs) ==> (r matches Ok(v) && v@ == cs),
        components_result(rom.bytes@) matches Err(e) ==> r == Err::<Vec<Component>, CartErr>(e),
{
    let romnum = decode_rom_size(rom)?;
    let ramnum = decode_ram_size(rom)?;
    let code = rom.byte_at(COMPONENTS)?;
    components_for(code, romnum, ramnum)
}

/// The low byte of the running checksum over `s`, summed as a non-negative
/// total of `byte + 1` and negated at the end.
fn checksum_of(s: &[u8]) -> (r: u8)
    requires
        s@.len() <= 0x1_0000,
    ensures
        r == checksum_byte(s@),
{
    let mut total: u64 = 0;
    let mut i: usize = 0;
    while i < s.len()
        invariant
            i <= s@.len() <= 0x1_0000,
            total as int == -checksum_acc(s@.take(i as int)),
            total <= i * 256,
        decreases s@.len() - i,
    {
        assert(s@.take(i + 1).drop_last() == s@.take(i as int));
        total = total + s[i] as u64 + 1;
        i = i + 1;
    }
    assert(s@.take(i as int) == s@);
    let m = total % 256;
    if m == 0 {
        assert(checksum_acc(s@) % 256 == 0) by {
            lemma_neg_mod(total as int);
        }
        0
    } else {
        assert(checksum_acc(s@) % 256 == 256 - m) by {
            lemma_neg_mod(total as int);
        }
        (256 - m) as u8
    }
}

/// The remainder of `-t` modulo 256, from that of `t`.
proof fn lemma_neg_mod(t: int)
    requires
        t >= 0,
    ensures
        t % 256 == 0 ==> (-t) % 256 == 0,
        t % 256 != 0 ==> (-t) % 256 == 256 - t % 256,
{
    let q = t / 256;
    let r = t % 256;
    assert(t == 256 * q + r);
    if r == 0 {
        assert(-t == 256 * (-q));
        vstd::arithmetic::div_mod::lemma_mod_multiples_basic(-q, 256);
    } else {
        assert(-t == 256 * (-q - 1) + (256 - r));
        vstd::arithmetic::div_mod::lemma_fundamental_div_mod_converse(-t, 256, -q - 1, 256 - r);
    }
}

/// Validates the stored header checksum: the low byte of the running sum of
/// `-(byte) - 1` over `[0x134, 0x14D)` must equal the byte at `0x14D`.
pub fn check_header_sum(bytes: &[u8]) -> (r: Result<(), CartErr>)
    ensures
        r == header_sum_result(bytes@),
{
    let covered = Region(CHECKSUM_START, CHECKSUM_END).extract(bytes)?;
    let stored = Region(CHECKSUM_HDR, CHECKSUM_HDR + 1).read_u8(bytes)?;
    let computed = checksum_of(covered);
    if computed == stored {
        Ok(())
    } else {
        Err(CartErr::BadHeaderChecksum(computed, stored))
    }
}

fn read_title(rom: &ROM) -> (r: Result<String, CartErr>)
    ensures
        rom.bytes@.len() >= TITLE_END ==> (r matches Ok(t) && t@ == lossy_text(
            rom.bytes@.subrange(TITLE_START as int, TITLE_END as int),
        )),
        rom.bytes@.len() < TITLE_END ==> r == Err::<String, CartErr>(CartErr::RegionOOB),
{
    let raw = Region(TITLE_START, TITLE_END).extract(rom.bytes.as_slice())?;
    Ok(text_from_bytes(raw))
}

fn decode_is_cgb(rom: &ROM) -> (r: Result<bool, CartErr>)
    ensures
        rom.bytes@.len() > CGB_FLAG ==> r == Ok::<bool, CartErr>(rom.bytes@[CGB_FLAG as int] == 0x80),
        rom.bytes@.len() <= CGB_FLAG ==> r == Err::<bool, CartErr>(CartErr::RegionOOB),
{
    let flag = rom.byte_at(CGB_FLAG)?;
    Ok(flag == 0x80)
}

fn decode_is_sgb(rom: &ROM) -> (r: Result<bool, CartErr>)
    ensures
        rom.bytes@.len() > SGB_FLAG ==> r == Ok::<bool, CartErr>(rom.bytes@[SGB_FLAG as int] == 0x03),
        rom.bytes@.len() <= SGB_FLAG ==> r == Err::<bool, CartErr>(CartErr::RegionOOB),
{
    let flag = rom.byte_at(SGB_FLAG)?;
    Ok(flag == 0x03)
}

/// A decoded cartridge header together with the image it came from.
#[derive(Debug)]
pub struct Cartridge {
    title: String,
    is_cgb: bool,
    is_sgb: bool,
    rom: ROM,
    components: Vec<Component>,
}

impl View for Cartridge {
    type V = CartridgeView;

    closed spec fn view(&self) -> CartridgeView {
        CartridgeView {
            title: self.title@,
            is_cgb: self.is_cgb,
            is_sgb: self.is_sgb,
            rom: self.rom.bytes@,
            components: self.components@,
        }
    }
}

impl Cartridge {
    /// Decodes the header and validates its checksum: fails where decoding fails,
    /// and otherwise with the checksum error, if any.
    pub fn new(bytes: Vec<u8>) -> (r: Result<Cartridge, CartErr>)
        ensures
            parse_header(bytes@) matches Err(e) ==> r == Err::<Cartridge, CartErr>(e),
            parse_header(bytes@) matches Ok(h) ==> match header_sum_result(bytes@) {
                Ok(_) => r matches Ok(c) && c@ == h,
                Err(e) => r == Err::<Cartridge, CartErr>(e),
            },
    {
        let x = Cartridge::new_no_check(bytes)?;
        check_header_sum(x.rom.bytes.as_slice())?;
        Ok(x)
    }

    /// Decodes the header without looking at its checksum.
    pub fn new_no_check(bytes: Vec<u8>) -> (r: Result<Cartridge, CartErr>)
        ensures
            parse_header(bytes@) matches Err(e) ==> r == Err::<Cartridge, CartErr>(e),
            parse_header(bytes@) matches Ok(h) ==> (r matches Ok(c) && c@ == h),
    {
        let rom = ROM::from_raw_bytes(bytes);
        let title = read_title(&rom)?;
        let components = decode_components(&rom)?;
        let is_cgb = decode_is_cgb(&rom)?;
        let is_sgb = decode_is_sgb(&rom)?;
        Ok(Cartridge { title, is_cgb, is_sgb, rom, components })
    }

    /// The title field, decoded as text with invalid bytes replaced.
    pub fn title(&self) -> (r: &str)
        ensures
            r@ == self@.title,
    {
        self.title.as_str()
    }

    /// The components on the board, in table order.
    pub fn components(&self) -> (r: &Vec<Component>)
        ensures
            r@ == self@.components,
    {
        &self.components
    }

    /// Whether `cmp` is among the components.
    pub fn has_component(&self, cmp: Component) -> (r: bool)
        ensures
            r == self@.components.contains(cmp),
    {
        let mut i: usize = 0;
        while i < self.components.len()
            invariant
                i <= self.components@.len(),
                forall|j: int| 0 <= j < i ==> self.components@[j] != cmp,
            decreases self.components@.len() - i,
        {
            if self.components[i] == cmp {
                return true;
            }
            i = i + 1;
        }
        false
    }

    /// Whether the header asks for color-mode hardware (flag byte `0x80`).
    pub fn is_cgb(&self) -> (r: bool)
        ensures
            r == self@.is_cgb,
    {
        self.is_cgb
    }

    /// Whether the header asks for super-mode hardware (flag byte `0x03`).
    pub fn is_sgb(&self) -> (r: bool)
        ensures
            r == self@.is_sgb,
    {
        self.is_sgb
    }

}

} // verus!
