//! Decoding of the variable-length opcode stream.
//!
//! An instruction is an optional prefix byte (`0xCB`, `0xDD`, `0xED`, `0xFD`),
//! the opcode, an optional signed displacement for index-relative addressing,
//! and an immediate operand of zero, one or two bytes. The index prefixes
//! `0xDD` and `0xFD` may be followed by `0xCB`, in which case the displacement
//! comes before the opcode. No instruction is longer than four bytes.
use vstd::prelude::*;

verus! {

/// Bytes that select an alternate opcode table for the byte after them.
#[derive(Clone, Copy, Debug, PartialEq, Eq, Structural)]
pub enum Prefix {
    CB,
    DD,
    ED,
    FD,
}

pub const PREFIX_CB: u8 = 0xCB;
pub const PREFIX_DD: u8 = 0xDD;
pub const PREFIX_ED: u8 = 0xED;
pub const PREFIX_FD: u8 = 0xFD;

/// The opcode table that was active when an opcode was looked up.
#[derive(Clone, Copy, Debug, PartialEq, Eq, Structural)]
pub enum OpTable {
    /// No prefix.
    Base,
    /// After `0xCB`.
    CB,
    /// After `0xED`.
    ED,
    /// After `0xDD`.
    DD,
    /// After `0xFD`.
    FD,
    /// After `0xDD 0xCB` and a displacement.
    DDCB,
    /// After `0xFD 0xCB` and a displacement.
    FDCB,
}

/// Errors of instruction decoding.
#[derive(Clone, Copy, Debug, PartialEq, Eq, Structural)]
pub enum DecodeErr {
    /// The byte is not a prefix.
    UnknownPrefix(u8),
    /// The opcode has no entry in the active table.
    UnknownOpcode(OpTable, u8),
    /// The window ends before the instruction does.
    OutOfBounds,
}

/// An immediate operand; a two-byte operand is stored low byte first.
#[derive(Clone, Copy, Debug, PartialEq, Eq, Structural)]
pub enum Immediate {
    Zero,
    One(u8),
    Two(u16),
}

/// One decoded instruction.
#[allow(inconsistent_fields)]
#[derive(Clone, Copy, Debug, PartialEq, Eq, Structural)]
pub enum Instr {
    /// An instruction of the unprefixed, `CB`, `ED`, `DD` or `FD` table.
    Single { prefix: Option<Prefix>, opcode: u8, displace: Option<i8>, immed: Immediate },
    /// `0xDD 0xCB d op`: a bit operation on the byte at `IX + d`.
    SpecialDD { displace: i8, opcode: u8 },
    /// `0xFD 0xCB d op`: a bit operation on the byte at `IY + d`.
    SpecialFD { displace: i8, opcode: u8 },
}

/// The prefix that a byte is, if any.
pub open spec fn prefix_of(b: u8) -> Option<Prefix> {
    if b == PREFIX_CB {
        Some(Prefix::CB)
    } else if b == PREFIX_DD {
        Some(Prefix::DD)
    } else if b == PREFIX_ED {
        Some(Prefix::ED)
    } else if b == PREFIX_FD {
        Some(Prefix::FD)
    } else {
        None
    }
}

/// The byte of a prefix.
pub open spec fn prefix_byte(p: Prefix) -> u8 {
    match p {
        Prefix::CB => PREFIX_CB,
        Prefix::DD => PREFIX_DD,
        Prefix::ED => PREFIX_ED,
        Prefix::FD => PREFIX_FD,
    }
}

/// `0xDD` and `0xFD` select an index register.
pub open spec fn is_index(p: Prefix) -> bool {
    p == Prefix::DD || p == Prefix::FD
}

/// The table that a prefix selects.
pub open spec fn table_of(p: Option<Prefix>) -> OpTable {
    match p {
        None => OpTable::Base,
        Some(Prefix::CB) => OpTable::CB,
        Some(Prefix::ED) => OpTable::ED,
        Some(Prefix::DD) => OpTable::DD,
        Some(Prefix::FD) => OpTable::FD,
    }
}

/// The table of bit operations on an indexed byte.
pub open spec fn bit_table_of(p: Prefix) -> OpTable {
    if p == Prefix::DD {
        OpTable::DDCB
    } else {
        OpTable::FDCB
    }
}

/// Unprefixed opcodes with a one-byte immediate: loads of a constant into a
/// register, relative jumps, arithmetic with a constant, and `IN` / `OUT`.
pub open spec fn base_one_byte(op: u8) -> bool {
    (op < 0x40 && op % 8 == 6) || (0x10 <= op < 0x40 && op % 8 == 0) || (0xC0 <= op && op % 8
        == 6) || op == 0xD3 || op == 0xDB
}

/// Unprefixed opcodes with a two-byte immediate: loads of a sixteen-bit
/// constant, loads through a direct address, absolute jumps and calls.
pub open spec fn base_two_byte(op: u8) -> bool {
    (op < 0x40 && op % 16 == 1) || op == 0x22 || op == 0x2A || op == 0x32 || op == 0x3A || (0xC0
        <= op && (op % 8 == 2 || op % 8 == 4)) || op == 0xC3 || op == 0xCD
}

/// Opcodes of the `ED` table.
pub open spec fn ed_defined(op: u8) -> bool {
    (0x40 <= op < 0x80 && (op % 8 < 4 || op == 0x44 || op == 0x45 || op == 0x4D || op == 0x46
        || op == 0x56 || op == 0x5E || op == 0x47 || op == 0x4F || op == 0x57 || op == 0x5F || op
        == 0x67 || op == 0x6F)) || (0xA0 <= op < 0xC0 && op % 8 < 4)
}

/// Opcodes of the `DD` / `FD` tables that address a byte at the index
/// register plus a displacement.
pub open spec fn index_displaced(op: u8) -> bool {
    op == 0x34 || op == 0x35 || op == 0x36 || (0x40 <= op < 0x80 && op != 0x76 && (op % 8 == 6
        || 0x70 <= op < 0x78)) || (0x80 <= op < 0xC0 && op % 8 == 6)
}

/// Opcodes of the `DD` / `FD` tables.
pub open spec fn index_defined(op: u8) -> bool {
    index_displaced(op) || op == 0x09 || op == 0x19 || op == 0x29 || op == 0x39 || op == 0x21
        || op == 0x22 || op == 0x23 || op == 0x2A || op == 0x2B || op == 0xE1 || op == 0xE3 || op
        == 0xE5 || op == 0xE9 || op == 0xF9
}

/// Opcodes after an index prefix, `0xCB` and a displacement.
pub open spec fn index_bit_defined(op: u8) -> bool {
    op % 8 == 6
}

/// Whether the table that `p` selects has an entry for `op`.
pub open spec fn opcode_defined(p: Option<Prefix>, op: u8) -> bool {
    match p {
        None => prefix_of(op) is None,
        Some(Prefix::CB) => true,
        Some(Prefix::ED) => ed_defined(op),
        Some(_) => index_defined(op),
    }
}

/// Whether `op` in the table that `p` selects takes a displacement byte.
pub open spec fn takes_displacement(p: Option<Prefix>, op: u8) -> bool {
    match p {
        Some(Prefix::DD) | Some(Prefix::FD) => index_displaced(op),
        _ => false,
    }
}

/// Width in bytes of the immediate operand of `op` in the table that `p` selects.
pub open spec fn imm_width(p: Option<Prefix>, op: u8) -> nat {
    match p {
        None => if base_two_byte(op) {
            2
        } else if base_one_byte(op) {
            1
        } else {
            0
        },
        Some(Prefix::CB) => 0,
        Some(Prefix::ED) => if 0x40 <= op < 0x80 && op % 8 == 3 {
            2
        } else {
            0
        },
        Some(_) => if op == 0x21 || op == 0x22 || op == 0x2A {
            2
        } else if op == 0x36 {
            1
        } else {
            0
        },
    }
}

/// The immediate operand of `width` bytes at `pos`, if the window holds it.
pub open spec fn immediate_at(w: Seq<u8>, pos: int, width: nat) -> Option<Immediate> {
    if width == 0 {
        Some(Immediate::Zero)
    } else if width == 1 {
        if pos < w.len() {
            Some(Immediate::One(w[pos]))
        } else {
            None
        }
    } else {
        if pos + 1 < w.len() {
            Some(Immediate::Two((w[pos] + 256 * w[pos + 1]) as u16))
        } else {
            None
        }
    }
}

/// Bytes taken by an optional prefix.
pub open spec fn prefix_len(p: Option<Prefix>) -> int {
    if p is Some {
        1
    } else {
        0
    }
}

/// Bytes taken by an optional displacement.
pub open spec fn displace_len(d: Option<i8>) -> int {
    if d is Some {
        1
    } else {
        0
    }
}

/// Bytes taken by an immediate operand.
pub open spec fn immed_len(i: Immediate) -> int {
    match i {
        Immediate::Zero => 0,
        Immediate::One(_) => 1,
        Immediate::Two(_) => 2,
    }
}

impl Instr {
    /// Number of bytes the instruction takes in the stream.
    pub open spec fn len_spec(self) -> int {
        match self {
            Instr::Single { prefix, displace, immed, .. } => 1 + prefix_len(prefix) + displace_len(
                displace,
            ) + immed_len(immed),
            Instr::SpecialDD { .. } => 4,
            Instr::SpecialFD { .. } => 4,
        }
    }
}

/// Decoding once the displacement, if any, has been read: the immediate
/// operand completes the instruction.
pub open spec fn after_displace(w: Seq<u8>, p: Option<Prefix>, op: u8, d: Option<i8>) -> Result<
    Instr,
    DecodeErr,
> {
    let pos = 1 + prefix_len(p) + displace_len(d);
    match immediate_at(w, pos, imm_width(p, op)) {
        None => Err(DecodeErr::OutOfBounds),
        Some(immed) => Ok(Instr::Single { prefix: p, opcode: op, displace: d, immed }),
    }
}

/// Decoding once a known opcode has been read: a displacement follows where
/// the opcode addresses relative to an index register.
pub open spec fn after_opcode(w: Seq<u8>, p: Option<Prefix>, op: u8) -> Result<Instr, DecodeErr> {
    let pos = 1 + prefix_len(p);
    if takes_displacement(p, op) {
        if pos < w.len() {
            after_displace(w, p, op, Some(w[pos] as i8))
        } else {
            Err(DecodeErr::OutOfBounds)
        }
    } else {
        after_displace(w, p, op, None)
    }
}

/// Decoding once an index prefix, `0xCB` and the displacement have been read.
pub open spec fn after_dbl_displace(w: Seq<u8>, p: Prefix, d: i8) -> Result<Instr, DecodeErr> {
    if w.len() < 4 {
        Err(DecodeErr::OutOfBounds)
    } else if !index_bit_defined(w[3]) {
        Err(DecodeErr::UnknownOpcode(bit_table_of(p), w[3]))
    } else if p == Prefix::DD {
        Ok(Instr::SpecialDD { displace: d, opcode: w[3] })
    } else {
        Ok(Instr::SpecialFD { displace: d, opcode: w[3] })
    }
}

/// Decoding once an index prefix and `0xCB` have been read.
pub open spec fn after_dbl_prefix(w: Seq<u8>, p: Prefix) -> Result<Instr, DecodeErr> {
    if w.len() < 3 {
        Err(DecodeErr::OutOfBounds)
    } else {
        after_dbl_displace(w, p, w[2] as i8)
    }
}

/// Decoding once a prefix byte has been read.
pub open spec fn after_prefix(w: Seq<u8>, p: Prefix) -> Result<Instr, DecodeErr> {
    if w.len() < 2 {
        Err(DecodeErr::OutOfBounds)
    } else if is_index(p) && w[1] == PREFIX_CB {
        after_dbl_prefix(w, p)
    } else if opcode_defined(Some(p), w[1]) {
        after_opcode(w, Some(p), w[1])
    } else {
        Err(DecodeErr::UnknownOpcode(table_of(Some(p)), w[1]))
    }
}

/// The instruction at the start of a window of the code stream, or why there
/// is none.
pub open spec fn decode_window(w: Seq<u8>) -> Result<Instr, DecodeErr> {
    if w.len() < 1 {
        Err(DecodeErr::OutOfBounds)
    } else {
        match prefix_of(w[0]) {
            Some(p) => after_prefix(w, p),
            None => after_opcode(w, None, w[0]),
        }
    }
}

/// The part of a window that decoding may look at: its first four bytes.
pub open spec fn lookahead(w: Seq<u8>) -> Seq<u8> {
    if w.len() <= 4 {
        w
    } else {
        w.take(4)
    }
}

impl From<Prefix> for u8 {
    fn from(p: Prefix) -> (r: u8) {
        match p {
            Prefix::CB => PREFIX_CB,
            Prefix::DD => PREFIX_DD,
            Prefix::ED => PREFIX_ED,
            Prefix::FD => PREFIX_FD,
        }
    }
}

impl vstd::std_specs::convert::FromSpecImpl<Prefix> for u8 {
    open spec fn obeys_from_spec() -> bool {
        true
    }

    open spec fn from_spec(p: Prefix) -> u8 {
        prefix_byte(p)
    }
}

impl TryFrom<u8> for Prefix {
    type Error = DecodeErr;

    fn try_from(raw: u8) -> (r: Result<Prefix, DecodeErr>) {
        match raw {
            PREFIX_CB => Ok(Prefix::CB),
            PREFIX_DD => Ok(Prefix::DD),
            PREFIX_ED => Ok(Prefix::ED),
            PREFIX_FD => Ok(Prefix::FD),
            _ => Err(DecodeErr::UnknownPrefix(raw)),
        }
    }
}

impl vstd::std_specs::convert::TryFromSpecImpl<u8> for Prefix {
    open spec fn obeys_try_from_spec() -> bool {
        true
    }

    open spec fn try_from_spec(raw: u8) -> Result<Prefix, DecodeErr> {
        match prefix_of(raw) {
            Some(p) => Ok(p),
            None => Err(DecodeErr::UnknownPrefix(raw)),
        }
    }
}

/// Whether the table that `p` selects has an entry for `op`.
fn has_entry(p: Option<Prefix>, op: u8) -> (r: bool)
    ensures
        r == opcode_defined(p, op),
{
    match p {
        None => op != PREFIX_CB && op != PREFIX_DD && op != PREFIX_ED && op != PREFIX_FD,
        Some(Prefix::CB) => true,
        Some(Prefix::ED) => {
            (0x40 <= op && op < 0x80 && (op % 8 < 4 || op == 0x44 || op == 0x45 || op == 0x4D
                || op == 0x46 || op == 0x56 || op == 0x5E || op == 0x47 || op == 0x4F || op == 0x57
                || op == 0x5F || op == 0x67 || op == 0x6F)) || (0xA0 <= op && op < 0xC0 && op % 8
                < 4)
        },
        Some(_) => {
            index_takes_displacement(op) || op == 0x09 || op == 0x19 || op == 0x29 || op == 0x39
                || op == 0x21 || op == 0x22 || op == 0x23 || op == 0x2A || op == 0x2B || op == 0xE1
                || op == 0xE3 || op == 0xE5 || op == 0xE9 || op == 0xF9
        },
    }
}

/// Whether `op` of the `DD` / `FD` tables takes a displacement byte.
fn index_takes_displacement(op: u8) -> (r: bool)
    ensures
        r == index_displaced(op),
{
    op == 0x34 || op == 0x35 || op == 0x36 || (0x40 <= op && op < 0x80 && op != 0x76 && (op % 8
        == 6 || (0x70 <= op && op < 0x78))) || (0x80 <= op && op < 0xC0 && op % 8 == 6)
}

/// Width in bytes of the immediate operand of `op` in the table that `p` selects.
fn immediate_width(p: Option<Prefix>, op: u8) -> (r: usize)
    ensures
        r == imm_width(p, op),
{
    match p {
        None => {
            if (op < 0x40 && op % 16 == 1) || op == 0x22 || op == 0x2A || op == 0x32 || op == 0x3A
                || (0xC0 <= op && (op % 8 == 2 || op % 8 == 4)) || op == 0xC3 || op == 0xCD {
                2
            } else if (op < 0x40 && op % 8 == 6) || (0x10 <= op && op < 0x40 && op % 8 == 0) || (
            0xC0 <= op && op % 8 == 6) || op == 0xD3 || op == 0xDB {
                1
            } else {
                0
            }
        },
        Some(Prefix::CB) => 0,
        Some(Prefix::ED) => {
            if 0x40 <= op && op < 0x80 && op % 8 == 3 {
                2
            } else {
                0
            }
        },
        Some(_) => {
            if op == 0x21 || op == 0x22 || op == 0x2A {
                2
            } else if op == 0x36 {
                1
            } else {
                0
            }
        },
    }
}

impl Instr {
    /// Number of bytes the instruction takes in the stream; the caller advances
    /// its program counter by this much.
    pub fn len(&self) -> (r: usize)
        ensures
            r == self.len_spec(),
    {
        match self {
            Instr::Single { prefix, displace, immed, .. } => {
                let p: usize = if prefix.is_some() {
                    1
                } else {
                    0
                };
                let d: usize = if displace.is_some() {
                    1
                } else {
                    0
                };
                let i: usize = match immed {
                    Immediate::Zero => 0,
                    Immediate::One(_) => 1,
                    Immediate::Two(_) => 2,
                };
                1 + p + d + i
            },
            Instr::SpecialDD { .. } => 4,
            Instr::SpecialFD { .. } => 4,
        }
    }
}

/// The stages of decoding. Each stage holds only what is known once it is
/// reached; `Decoder::step` moves to the next one or fails.
#[derive(Clone, Copy, Debug, PartialEq, Eq, Structural)]
pub enum DecoderState {
    /// Nothing has been read.
    Start,
    /// A prefix byte has been read.
    Prefix(Prefix),
    /// An index prefix followed by `0xCB` has been read.
    DblPrefix(Prefix),
    /// An index prefix, `0xCB` and the displacement have been read.
    Displace(Prefix, i8),
    /// An opcode with an entry in its table has been read.
    Opcode(Option<Prefix>, u8),
    /// The displacement, where the opcode takes one, has been read.
    Immed(Option<Prefix>, u8, Option<i8>),
    /// The instruction is complete.
    Done(Instr),
}

/// What decoding yields for window `w` once `state` has been reached.
pub open spec fn state_outcome(state: DecoderState, w: Seq<u8>) -> Result<Instr, DecodeErr> {
    match state {
        DecoderState::Start => decode_window(w),
        DecoderState::Prefix(p) => after_prefix(w, p),
        DecoderState::DblPrefix(p) => after_dbl_prefix(w, p),
        DecoderState::Displace(p, d) => after_dbl_displace(w, p, d),
        DecoderState::Opcode(p, op) => after_opcode(w, p, op),
        DecoderState::Immed(p, op, d) => after_displace(w, p, op, d),
        DecoderState::Done(i) => Ok(i),
    }
}

/// Number of stages at most that remain after `state`.
pub open spec fn stages_left(state: DecoderState) -> nat {
    match state {
        DecoderState::Start => 6,
        DecoderState::Prefix(_) => 5,
        DecoderState::DblPrefix(_) => 4,
        DecoderState::Displace(..) => 3,
        DecoderState::Opcode(..) => 2,
        DecoderState::Immed(..) => 1,
        DecoderState::Done(_) => 0,
    }
}

/// A decoder over the first four bytes, at most, of a window of the code stream.
pub struct Decoder {
    bytes: Vec<u8>,
    state: DecoderState,
}

impl Decoder {
    /// The stage reached.
    pub closed spec fn state_spec(&self) -> DecoderState {
        self.state
    }

    /// What decoding yields from the stage reached.
    pub closed spec fn outcome(&self) -> Result<Instr, DecodeErr> {
        state_outcome(self.state, self.bytes@)
    }

    /// A decoder at its first stage over `bytes`; it keeps the four bytes at
    /// most that decoding may look at.
    pub fn new(bytes: &[u8]) -> (r: Decoder)
        ensures
            r.state_spec() == DecoderState::Start,
            r.outcome() == decode_window(bytes@),
    {
        let n: usize = if bytes.len() < 4 {
            bytes.len()
        } else {
            4
        };
        let mut window: Vec<u8> = Vec::new();
        let mut i: usize = 0;
        while i < n
            invariant
                n <= bytes@.len(),
                n == bytes@.len() || n == 4,
                i <= n,
                window@ == bytes@.take(i as int),
            decreases n - i,
        {
            window.push(bytes[i]);
            i = i + 1;
        }
        proof {
            assert(window@ == lookahead(bytes@));
            lemma_lookahead_suffices(bytes@);
        }
        Decoder { bytes: window, state: DecoderState::Start }
    }

    /// The byte at `i`, or `OutOfBounds` past the end of the window.
    fn at(&self, i: usize) -> (r: Result<u8, DecodeErr>)
        ensures
            i < self.bytes@.len() ==> r == Ok::<u8, DecodeErr>(self.bytes@[i as int]),
            i >= self.bytes@.len() ==> r == Err::<u8, DecodeErr>(DecodeErr::OutOfBounds),
    {
        if i < self.bytes.len() {
            Ok(self.bytes[i])
        } else {
            Err(DecodeErr::OutOfBounds)
        }
    }

    /// The immediate operand of `width` bytes at `pos`.
    fn immediate(&self, pos: usize, width: usize) -> (r: Result<Immediate, DecodeErr>)
        requires
            pos <= 4,
            width <= 2,
        ensures
            immediate_at(self.bytes@, pos as int, width as nat) matches Some(i) ==> r
                == Ok::<Immediate, DecodeErr>(i),
            immediate_at(self.bytes@, pos as int, width as nat) is None ==> r == Err::<
                Immediate,
                DecodeErr,
            >(DecodeErr::OutOfBounds),
    {
        if width == 0 {
            Ok(Immediate::Zero)
        } else if width == 1 {
            let b = self.at(pos)?;
            Ok(Immediate::One(b))
        } else {
            let lo = self.at(pos)?;
            let hi = self.at(pos + 1)?;
            Ok(Immediate::Two((lo as u16) + (hi as u16) * 256))
        }
    }

    /// Whether the last stage has been reached.
    pub fn is_done(&self) -> (r: bool)
        ensures
            r == (self.state_spec() is Done),
    {
        match self.state {
            DecoderState::Done(_) => true,
            _ => false,
        }
    }

    /// Moves to the next stage, reading at most one byte, or fails with what
    /// decoding yields.
    pub fn step(self) -> (r: Result<Decoder, DecodeErr>)
        requires
            !(self.state_spec() is Done),
        ensures
            r matches Ok(d) ==> d.outcome() == self.outcome() && stages_left(d.state_spec())
                < stages_left(self.state_spec()),
            r matches Err(e) ==> self.outcome() == Err::<Instr, DecodeErr>(e),
    {
        let next = match self.state {
            DecoderState::Start => {
                let b = self.at(0)?;
                match Prefix::try_from(b) {
                    Ok(p) => DecoderState::Prefix(p),
                    Err(_) => DecoderState::Opcode(None, b),
                }
            },
            DecoderState::Prefix(p) => {
                let b = self.at(1)?;
                if (p == Prefix::DD || p == Prefix::FD) && b == PREFIX_CB {
                    DecoderState::DblPrefix(p)
                } else if has_entry(Some(p), b) {
                    DecoderState::Opcode(Some(p), b)
                } else {
                    let table = match p {
                        Prefix::CB => OpTable::CB,
                        Prefix::DD => OpTable::DD,
                        Prefix::ED => OpTable::ED,
                        Prefix::FD => OpTable::FD,
                    };
                    return Err(DecodeErr::UnknownOpcode(table, b));
                }
            },
            DecoderState::DblPrefix(p) => {
                let d = self.at(2)?;
                DecoderState::Displace(p, d as i8)
            },
            DecoderState::Displace(p, d) => {
                let op = self.at(3)?;
                if op % 8 != 6 {
                    let table = if p == Prefix::DD {
                        OpTable::DDCB
                    } else {
                        OpTable::FDCB
                    };
                    return Err(DecodeErr::UnknownOpcode(table, op));
                }
                if p == Prefix::DD {
                    DecoderState::Done(Instr::SpecialDD { displace: d, opcode: op })
                } else {
                    DecoderState::Done(Instr::SpecialFD { displace: d, opcode: op })
                }
            },
            DecoderState::Opcode(p, op) => {
                let pos: usize = if p.is_some() {
                    2
                } else {
                    1
                };
                let displaced = match p {
                    Some(Prefix::DD) | Some(Prefix::FD) => index_takes_displacement(op),
                    _ => false,
                };
                if displaced {
                    let d = self.at(pos)?;
                    DecoderState::Immed(p, op, Some(d as i8))
                } else {
                    DecoderState::Immed(p, op, None)
                }
            },
            DecoderState::Immed(p, op, d) => {
                let pos: usize = 1 + (if p.is_some() {
                    1
                } else {
                    0
                }) + (if d.is_some() {
                    1
                } else {
                    0
                });
                let immed = self.immediate(pos, immediate_width(p, op))?;
                DecoderState::Done(Instr::Single { prefix: p, opcode: op, displace: d, immed })
            },
            DecoderState::Done(i) => DecoderState::Done(i),
        };
        Ok(Decoder { bytes: self.bytes, state: next })
    }

    /// Runs the remaining stages and returns the instruction or the error.
    pub fn run(self) -> (r: Result<Instr, DecodeErr>)
        ensures
            r == self.outcome(),
    {
        let ghost goal = self.outcome();
        let mut d = self;
        while !d.is_done()
            invariant
                goal == self.outcome(),
                d.outcome() == goal,
            decreases stages_left(d.state_spec()),
        {
            d = d.step()?;
        }
        match d.state {
            DecoderState::Done(i) => Ok(i),
            _ => Err(DecodeErr::OutOfBounds),
        }
    }
}

impl Instr {
    /// Decodes the instruction at the start of `raw`, a window of the code
    /// stream. At most the first four bytes are read; a window that ends before
    /// the instruction does gives `OutOfBounds`.
    pub fn decode(raw: &[u8]) -> (r: Result<Instr, DecodeErr>)
        ensures
            r == decode_window(raw@),
            r matches Ok(i) ==> 1 <= i.len_spec() <= 4 && i.len_spec() <= raw@.len(),
    {
        proof {
            lemma_decoded_len(raw@);
        }
        Decoder::new(raw).run()
    }
}

/// Decoding reads nothing past the fourth byte of a window.
proof fn lemma_lookahead_suffices(w: Seq<u8>)
    ensures
        decode_window(lookahead(w)) == decode_window(w),
{
    if w.len() > 4 {
        let v = lookahead(w);
        assert(v.len() == 4);
        assert(v[0] == w[0] && v[1] == w[1] && v[2] == w[2] && v[3] == w[3]);
    }
}

/// Decoding never reads more than the first four bytes of a window, and holds
/// no state between calls: two windows that agree on those bytes, and the
/// same window decoded twice, give the same result.
pub proof fn lemma_decode_lookahead(a: Seq<u8>, b: Seq<u8>)
    requires
        lookahead(a) == lookahead(b),
    ensures
        decode_window(a) == decode_window(b),
{
    lemma_lookahead_suffices(a);
    lemma_lookahead_suffices(b);
}

/// A decoded instruction takes between one and four bytes, all of them inside
/// the window.
pub proof fn lemma_decoded_len(w: Seq<u8>)
    ensures
        decode_window(w) matches Ok(i) ==> 1 <= i.len_spec() <= 4 && i.len_spec() <= w.len(),
{
}

} // verus!
