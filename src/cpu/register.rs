//! Eight-bit registers, register pairs, and the flag bits.
use vstd::prelude::*;

verus! {

/// A register holding a value of type `T`.
pub trait Register<T> {
    /// The value held.
    spec fn value(&self) -> T;

    fn get(&self) -> (r: T)
        ensures
            r == self.value(),
    ;

    fn set(&mut self, new_value: T)
        ensures
            final(self).value() == new_value,
    ;
}

/// The flag bits of the flag register.
#[derive(Clone, Copy, Debug, PartialEq, Eq, Structural)]
pub enum Flag {
    Zero,
    AddSub,
    HalfCarry,
    Carry,
}

impl Flag {
    /// The bit of the flag register that holds this flag.
    pub open spec fn mask_spec(self) -> u8 {
        match self {
            Flag::Zero => 0x80,
            Flag::AddSub => 0x40,
            Flag::HalfCarry => 0x20,
            Flag::Carry => 0x10,
        }
    }

    /// The bit of the flag register that holds this flag.
    pub fn mask(self) -> (r: u8)
        ensures
            r == self.mask_spec(),
    {
        match self {
            Flag::Zero => 0x80,
            Flag::AddSub => 0x40,
            Flag::HalfCarry => 0x20,
            Flag::Carry => 0x10,
        }
    }
}

/// An eight-bit register used as a flag register.
pub trait FlagRegister: Register<u8> {
    fn is_set(&self, flag: Flag) -> (r: bool)
        ensures
            r == (self.value() & flag.mask_spec() != 0),
    ;
}

/// An eight-bit register.
pub struct Reg {
    value: u8,
}

impl Reg {
    pub fn new(initial: u8) -> (r: Reg)
        ensures
            r.value() == initial,
    {
        Reg { value: initial }
    }
}

impl Register<u8> for Reg {
    closed spec fn value(&self) -> u8 {
        self.value
    }

    fn get(&self) -> (r: u8) {
        self.value
    }

    fn set(&mut self, new_value: u8) {
        self.value = new_value;
    }
}

impl FlagRegister for Reg {
    fn is_set(&self, flag: Flag) -> (r: bool) {
        (self.get() & flag.mask()) != 0
    }
}

/// Two eight-bit registers used together as one sixteen-bit register; the
/// upper register holds the high byte.
pub struct CompositeReg {
    upper: Reg,
    lower: Reg,
}

impl CompositeReg {
    /// The register holding the high byte.
    pub closed spec fn upper_reg(&self) -> Reg {
        self.upper
    }

    /// The register holding the low byte.
    pub closed spec fn lower_reg(&self) -> Reg {
        self.lower
    }

    pub fn new(initial: u16) -> (r: CompositeReg)
        ensures
            r.value() == initial,
    {
        let mut x = CompositeReg { upper: Reg::new(0), lower: Reg::new(0) };
        x.set(initial);
        x
    }

    pub fn upper(&self) -> (r: &Reg)
        ensures
            *r == self.upper_reg(),
    {
        &self.upper
    }

    pub fn upper_mut(&mut self) -> (r: &mut Reg)
        ensures
            *r == old(self).upper_reg(),
            final(self).upper_reg() == *final(r),
            final(self).lower_reg() == old(self).lower_reg(),
    {
        &mut self.upper
    }

    pub fn lower(&self) -> (r: &Reg)
        ensures
            *r == self.lower_reg(),
    {
        &self.lower
    }

    pub fn lower_mut(&mut self) -> (r: &mut Reg)
        ensures
            *r == old(self).lower_reg(),
            final(self).lower_reg() == *final(r),
            final(self).upper_reg() == old(self).upper_reg(),
    {
        &mut self.lower
    }
}

impl Register<u16> for CompositeReg {
    closed spec fn value(&self) -> u16 {
        (self.upper.value() * 256 + self.lower.value()) as u16
    }

    fn get(&self) -> (r: u16) {
        (self.upper.get() as u16) * 256 + (self.lower.get() as u16)
    }

    fn set(&mut self, new_value: u16) {
        self.upper.set((new_value / 256) as u8);
        self.lower.set((new_value % 256) as u8);
    }
}

} // verus!
