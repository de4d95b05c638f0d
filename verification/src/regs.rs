//! Model of the clock, reset and power-control registers that peripheral
//! bring-up writes, together with the read-modify-write operations performed
//! on them.
//!
//! Each field of [`ClockRegs`] stands for one 32-bit memory-mapped register.
//! A bring-up sequence is a short list of [`RegWrite`] operations; applying
//! the list to a register state is defined by [`apply_writes`].

use vstd::prelude::*;

verus! {

/// The registers of the reset/clock controller and the power controller that
/// this crate's bring-up sequences touch. Registers the sequences never write
/// are not part of the model.
#[derive(Clone, Copy, PartialEq, Eq, Structural, Debug)]
pub struct ClockRegs {
    /// Power controller CR3 (holds the USB voltage-regulator bypass bit).
    pub pwr_cr3: u32,
    /// AHB1 peripheral clock-enable register.
    pub ahb1enr: u32,
    /// AHB1 peripheral reset register.
    pub ahb1rstr: u32,
    /// APB1 peripheral clock-enable register.
    pub apb1enr1: u32,
    /// APB1 peripheral reset register.
    pub apb1rstr1: u32,
}

/// Which modelled register a single write targets.
#[derive(Clone, Copy, PartialEq, Eq, Structural, Debug)]
pub enum Reg {
    PwrCr3,
    Ahb1Enr,
    Ahb1Rstr,
    Apb1Enr1,
    Apb1Rstr1,
}

/// One read-modify-write of a single register: set (`set == true`) or clear
/// (`set == false`) exactly the bits of `mask`, leaving all other bits as
/// they were.
#[derive(Clone, Copy, PartialEq, Eq, Structural, Debug)]
pub struct RegWrite {
    pub reg: Reg,
    pub set: bool,
    pub mask: u32,
}

/// The value the modelled register `r` holds in state `s`.
pub open spec fn spec_read(s: ClockRegs, r: Reg) -> u32 {
    match r {
        Reg::PwrCr3 => s.pwr_cr3,
        Reg::Ahb1Enr => s.ahb1enr,
        Reg::Ahb1Rstr => s.ahb1rstr,
        Reg::Apb1Enr1 => s.apb1enr1,
        Reg::Apb1Rstr1 => s.apb1rstr1,
    }
}

/// State `s` with register `r` replaced by `v`.
pub open spec fn spec_store(s: ClockRegs, r: Reg, v: u32) -> ClockRegs {
    match r {
        Reg::PwrCr3 => ClockRegs { pwr_cr3: v, ..s },
        Reg::Ahb1Enr => ClockRegs { ahb1enr: v, ..s },
        Reg::Ahb1Rstr => ClockRegs { ahb1rstr: v, ..s },
        Reg::Apb1Enr1 => ClockRegs { apb1enr1: v, ..s },
        Reg::Apb1Rstr1 => ClockRegs { apb1rstr1: v, ..s },
    }
}

/// The effect of one read-modify-write on a register state.
pub open spec fn apply_write(s: ClockRegs, w: RegWrite) -> ClockRegs {
    let v = spec_read(s, w.reg);
    spec_store(s, w.reg, if w.set { v | w.mask } else { v & !w.mask })
}

/// The effect of the writes `ws[i..]`, performed in order, starting from `s`.
pub open spec fn apply_writes_from(s: ClockRegs, ws: Seq<RegWrite>, i: int) -> ClockRegs
    decreases ws.len() - i,
{
    if i < 0 || i >= ws.len() {
        s
    } else {
        apply_writes_from(apply_write(s, ws[i]), ws, i + 1)
    }
}

/// The effect of the whole write list `ws`, performed in order, starting
/// from `s`.
pub open spec fn apply_writes(s: ClockRegs, ws: Seq<RegWrite>) -> ClockRegs {
    apply_writes_from(s, ws, 0)
}

/// Perform one read-modify-write on the register model.
pub fn apply(s: &mut ClockRegs, w: RegWrite)
    ensures
        *final(s) == apply_write(*old(s), w),
{
    match w.reg {
        Reg::PwrCr3 => {
            s.pwr_cr3 = if w.set { s.pwr_cr3 | w.mask } else { s.pwr_cr3 & !w.mask };
        }
        Reg::Ahb1Enr => {
            s.ahb1enr = if w.set { s.ahb1enr | w.mask } else { s.ahb1enr & !w.mask };
        }
        Reg::Ahb1Rstr => {
            s.ahb1rstr = if w.set { s.ahb1rstr | w.mask } else { s.ahb1rstr & !w.mask };
        }
        Reg::Apb1Enr1 => {
            s.apb1enr1 = if w.set { s.apb1enr1 | w.mask } else { s.apb1enr1 & !w.mask };
        }
        Reg::Apb1Rstr1 => {
            s.apb1rstr1 = if w.set { s.apb1rstr1 | w.mask } else { s.apb1rstr1 & !w.mask };
        }
    }
}

/// Perform a whole write list on the register model, in order.
pub fn apply_all(s: &mut ClockRegs, ws: &Vec<RegWrite>)
    ensures
        *final(s) == apply_writes(*old(s), ws@),
{
    let mut i: usize = 0;
    while i < ws.len()
        invariant
            i <= ws.len(),
            apply_writes_from(*s, ws@, i as int) == apply_writes(*old(s), ws@),
        decreases ws.len() - i,
    {
        apply(s, ws[i]);
        i = i + 1;
    }
}

} // verus!
