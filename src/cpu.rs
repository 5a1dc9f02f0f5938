//! The processor: its register file, its clock, and the instruction decoder.
use vstd::prelude::*;

use self::register::{CompositeReg, Register};

pub mod clock;
pub mod instr;
pub mod register;

verus! {

/// Register contents of a processor.
pub struct ProcessorView {
    pub af: u16,
    pub bc: u16,
    pub de: u16,
    pub hl: u16,
    pub sp: u16,
    pub pc: u16,
}

/// The processor's register file.
pub struct Processor {
    reg_af: CompositeReg,
    reg_bc: CompositeReg,
    reg_de: CompositeReg,
    reg_hl: CompositeReg,
    reg_sp: CompositeReg,
    reg_pc: CompositeReg,
}

impl View for Processor {
    type V = ProcessorView;

    closed spec fn view(&self) -> ProcessorView {
        ProcessorView {
            af: self.reg_af.value(),
            bc: self.reg_bc.value(),
            de: self.reg_de.value(),
            hl: self.reg_hl.value(),
            sp: self.reg_sp.value(),
            pc: self.reg_pc.value(),
        }
    }
}

impl Processor {
    /// A processor with every register cleared.
    pub fn new() -> (r: Processor)
        ensures
            r@ == (ProcessorView { af: 0, bc: 0, de: 0, hl: 0, sp: 0, pc: 0 }),
    {
        Processor {
            reg_af: CompositeReg::new(0),
            reg_bc: CompositeReg::new(0),
            reg_de: CompositeReg::new(0),
            reg_hl: CompositeReg::new(0),
            reg_sp: CompositeReg::new(0),
            reg_pc: CompositeReg::new(0),
        }
    }

    /// Starts execution. Instruction execution is not part of this library, so
    /// the registers stay as they are.
    pub fn start(&mut self)
        ensures
            final(self)@ == old(self)@,
    {
    }
}

} // verus!
