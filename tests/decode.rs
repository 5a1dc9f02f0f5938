use gbhw::cpu::instr::{DecodeErr, Decoder, Immediate, Instr, OpTable, Prefix};

fn single(prefix: Option<Prefix>, opcode: u8, displace: Option<i8>, immed: Immediate) -> Instr {
    Instr::Single { prefix, opcode, displace, immed }
}

#[test]
fn nop_is_one_byte() {
    let i = Instr::decode(&[0x00]).unwrap();
    assert_eq!(i, single(None, 0x00, None, Immediate::Zero));
    assert_eq!(i.len(), 1);
}

#[test]
fn cb_prefixed_is_two_bytes() {
    let i = Instr::decode(&[0xCB, 0x00, 0x12, 0x34]).unwrap();
    assert_eq!(i, single(Some(Prefix::CB), 0x00, None, Immediate::Zero));
    assert_eq!(i.len(), 2);
}

#[test]
fn indexed_add_has_no_displacement() {
    let i = Instr::decode(&[0xDD, 0x09]).unwrap();
    assert_eq!(i, single(Some(Prefix::DD), 0x09, None, Immediate::Zero));
    assert_eq!(i.len(), 2);
}

#[test]
fn short_window_is_out_of_bounds() {
    assert_eq!(Instr::decode(&[]), Err(DecodeErr::OutOfBounds));
    assert_eq!(Instr::decode(&[0xC3, 0x00]), Err(DecodeErr::OutOfBounds));
    assert_eq!(Instr::decode(&[0x3E]), Err(DecodeErr::OutOfBounds));
    assert_eq!(Instr::decode(&[0xDD]), Err(DecodeErr::OutOfBounds));
    assert_eq!(Instr::decode(&[0xDD, 0x36, 0x01]), Err(DecodeErr::OutOfBounds));
    assert_eq!(Instr::decode(&[0xFD, 0xCB, 0x01]), Err(DecodeErr::OutOfBounds));
    assert_eq!(Instr::decode(&[0xED, 0x43, 0x00]), Err(DecodeErr::OutOfBounds));
    // 0xFF takes no operand: the byte alone is a whole instruction.
    assert_eq!(Instr::decode(&[0xFF]).unwrap().len(), 1);
}

#[test]
fn decoding_twice_gives_the_same_result() {
    let windows: [&[u8]; 4] = [&[0xDD, 0x36, 0xFE, 0x07], &[0xED, 0x00], &[0xC3], &[0x18, 0x80]];
    for w in windows.iter() {
        assert_eq!(Instr::decode(w), Instr::decode(w));
    }
    // Bytes past the fourth are never read.
    assert_eq!(
        Instr::decode(&[0xDD, 0x21, 0x34, 0x12, 0x99, 0x98]),
        Instr::decode(&[0xDD, 0x21, 0x34, 0x12])
    );
}

#[test]
fn immediates_are_little_endian() {
    let i = Instr::decode(&[0xC3, 0x34, 0x12, 0x00]).unwrap();
    assert_eq!(i, single(None, 0xC3, None, Immediate::Two(0x1234)));
    assert_eq!(i.len(), 3);
    let i = Instr::decode(&[0x3E, 0x42]).unwrap();
    assert_eq!(i, single(None, 0x3E, None, Immediate::One(0x42)));
    assert_eq!(i.len(), 2);
    let i = Instr::decode(&[0xED, 0x43, 0xCD, 0xAB]).unwrap();
    assert_eq!(i, single(Some(Prefix::ED), 0x43, None, Immediate::Two(0xABCD)));
    assert_eq!(i.len(), 4);
}

#[test]
fn indexed_displacements() {
    let i = Instr::decode(&[0xDD, 0x36, 0xFE, 0x07]).unwrap();
    assert_eq!(i, single(Some(Prefix::DD), 0x36, Some(-2), Immediate::One(0x07)));
    assert_eq!(i.len(), 4);
    let i = Instr::decode(&[0xFD, 0x7E, 0x05]).unwrap();
    assert_eq!(i, single(Some(Prefix::FD), 0x7E, Some(5), Immediate::Zero));
    assert_eq!(i.len(), 3);
    let i = Instr::decode(&[0xFD, 0x21, 0x00, 0x80]).unwrap();
    assert_eq!(i, single(Some(Prefix::FD), 0x21, None, Immediate::Two(0x8000)));
    assert_eq!(i.len(), 4);
}

#[test]
fn double_prefix_forms() {
    let i = Instr::decode(&[0xDD, 0xCB, 0x80, 0x46]).unwrap();
    assert_eq!(i, Instr::SpecialDD { displace: -128, opcode: 0x46 });
    assert_eq!(i.len(), 4);
    let i = Instr::decode(&[0xFD, 0xCB, 0x7F, 0x06]).unwrap();
    assert_eq!(i, Instr::SpecialFD { displace: 127, opcode: 0x06 });
    assert_eq!(
        Instr::decode(&[0xDD, 0xCB, 0x00, 0x47]),
        Err(DecodeErr::UnknownOpcode(OpTable::DDCB, 0x47))
    );
    assert_eq!(
        Instr::decode(&[0xFD, 0xCB, 0x00, 0x00]),
        Err(DecodeErr::UnknownOpcode(OpTable::FDCB, 0x00))
    );
}

#[test]
fn unknown_opcodes_name_their_table() {
    assert_eq!(Instr::decode(&[0xED, 0x00]), Err(DecodeErr::UnknownOpcode(OpTable::ED, 0x00)));
    assert_eq!(Instr::decode(&[0xDD, 0x00]), Err(DecodeErr::UnknownOpcode(OpTable::DD, 0x00)));
    assert_eq!(Instr::decode(&[0xFD, 0x76]), Err(DecodeErr::UnknownOpcode(OpTable::FD, 0x76)));
    assert_eq!(Instr::decode(&[0xDD, 0xDD]), Err(DecodeErr::UnknownOpcode(OpTable::DD, 0xDD)));
    // The table is known before the window runs out.
    assert_eq!(Instr::decode(&[0xED, 0xFF]), Err(DecodeErr::UnknownOpcode(OpTable::ED, 0xFF)));
}

#[test]
fn block_and_relative_jumps() {
    assert_eq!(Instr::decode(&[0xED, 0xB0]).unwrap().len(), 2);
    assert_eq!(Instr::decode(&[0x18, 0xFE]).unwrap(), single(None, 0x18, None, Immediate::One(0xFE)));
    assert_eq!(Instr::decode(&[0xCD, 0x00, 0x01]).unwrap().len(), 3);
    assert_eq!(Instr::decode(&[0x76]).unwrap().len(), 1);
}

#[test]
fn prefix_bytes_convert() {
    for &(b, p) in &[(0xCBu8, Prefix::CB), (0xDD, Prefix::DD), (0xED, Prefix::ED), (0xFD, Prefix::FD)] {
        assert_eq!(Prefix::try_from(b), Ok(p));
        let back: u8 = p.into();
        assert_eq!(back, b);
    }
    assert_eq!(Prefix::try_from(0x00), Err(DecodeErr::UnknownPrefix(0x00)));
}

#[test]
fn decoder_steps_through_stages() {
    let mut d = Decoder::new(&[0xDD, 0x36, 0x01, 0x02, 0x03]);
    let mut steps = 0;
    while !d.is_done() {
        d = d.step().unwrap();
        steps += 1;
    }
    assert_eq!(steps, 4);
    assert_eq!(
        d.run(),
        Ok(single(Some(Prefix::DD), 0x36, Some(1), Immediate::One(2)))
    );
    assert_eq!(Decoder::new(&[0xED]).run(), Err(DecodeErr::OutOfBounds));
}
