use gbhw::cpu::clock::{Clock, Frequency};
use gbhw::cpu::register::{CompositeReg, Flag, FlagRegister, Reg, Register};
use gbhw::cpu::Processor;

#[test]
fn eight_bit_register() {
    let mut r = Reg::new(0x12);
    assert_eq!(r.get(), 0x12);
    r.set(0xA5);
    assert_eq!(r.get(), 0xA5);
}

#[test]
fn register_pair_halves() {
    let mut r = CompositeReg::new(0xBEEF);
    assert_eq!(r.get(), 0xBEEF);
    assert_eq!(r.upper().get(), 0xBE);
    assert_eq!(r.lower().get(), 0xEF);
    r.upper_mut().set(0x12);
    assert_eq!(r.get(), 0x12EF);
    r.lower_mut().set(0x34);
    assert_eq!(r.get(), 0x1234);
    r.set(0x00FF);
    assert_eq!(r.upper().get(), 0x00);
    assert_eq!(r.lower().get(), 0xFF);
}

#[test]
fn flag_bits() {
    let f = Reg::new(0b1001_0000);
    assert!(f.is_set(Flag::Zero));
    assert!(!f.is_set(Flag::AddSub));
    assert!(!f.is_set(Flag::HalfCarry));
    assert!(f.is_set(Flag::Carry));
    assert_eq!(Flag::HalfCarry.mask(), 0x20);
}

#[test]
fn clock_counts_cycles() {
    let mut c = Clock::new(Frequency::Single);
    assert_eq!(c.time(), 0);
    c.incr();
    assert_eq!(c.time(), 4);
    c.incr_n(3);
    assert_eq!(c.time(), 16);
    let c = Clock::new_start_time(100, Frequency::Double);
    assert_eq!(c.time(), 100);
}

#[test]
fn processor_starts_cleared() {
    let mut p = Processor::new();
    p.start();
}
