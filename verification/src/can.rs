//! Bring-up for the Controller Area Network block: clock-enable and reset
//! sequencing on the APB1 bus, and the static capability data (register
//! address, filter-bank count, master capability) that the external CAN
//! driver libraries ask an instance to declare.

use vstd::prelude::*;

use crate::family::{
    can_addr, can_bit, can_kind, spec_can_addr, spec_can_bit, spec_can_kind, spec_filter_banks,
    CanKind, ChipFamily,
};
use crate::regs::{apply_write, apply_writes, apply_writes_from, ClockRegs, Reg, RegWrite};

verus! {

/// Handle to the chip's CAN register block: ownership of the block, tagged
/// with the family whose block it is.
#[derive(Clone, Copy, PartialEq, Eq, Structural, Debug)]
pub struct CanRegs {
    pub family: ChipFamily,
}

/// Interface to the CAN peripheral: the register block, clocked and out of
/// reset.
#[derive(Clone, Copy, PartialEq, Eq, Structural, Debug)]
pub struct Can {
    pub regs: CanRegs,
}

/// The single bit the family's CAN enable and reset fields occupy.
pub open spec fn spec_can_mask(f: ChipFamily) -> u32 {
    1u32 << spec_can_bit(f)
}

/// The clock/reset state after bringing the family's CAN block up: the
/// clock-enable bit set, the reset line pulsed (set, then cleared), and
/// nothing else written.
pub open spec fn spec_bring_up(s: ClockRegs, f: ChipFamily) -> ClockRegs {
    ClockRegs {
        apb1enr1: s.apb1enr1 | spec_can_mask(f),
        apb1rstr1: (s.apb1rstr1 | spec_can_mask(f)) & !spec_can_mask(f),
        ..s
    }
}

/// The write list the bring-up performs, in order: set the clock-enable bit,
/// set the reset bit, clear the reset bit.
pub open spec fn spec_bring_up_writes(f: ChipFamily) -> Seq<RegWrite> {
    seq![
        RegWrite { reg: Reg::Apb1Enr1, set: true, mask: spec_can_mask(f) },
        RegWrite { reg: Reg::Apb1Rstr1, set: true, mask: spec_can_mask(f) },
        RegWrite { reg: Reg::Apb1Rstr1, set: false, mask: spec_can_mask(f) },
    ]
}

/// Performing exactly the bring-up write list leaves the registers in the
/// bring-up state: the state change is that of those three writes and of
/// nothing else.
pub proof fn lemma_bring_up_writes_apply(s: ClockRegs, f: ChipFamily)
    ensures
        apply_writes(s, spec_bring_up_writes(f)) == spec_bring_up(s, f),
{
    let ws = spec_bring_up_writes(f);
    let s1 = apply_write(s, ws[0]);
    let s2 = apply_write(s1, ws[1]);
    let s3 = apply_write(s2, ws[2]);
    assert(apply_writes_from(s, ws, 0) == apply_writes_from(s1, ws, 1));
    assert(apply_writes_from(s1, ws, 1) == apply_writes_from(s2, ws, 2));
    assert(apply_writes_from(s2, ws, 2) == apply_writes_from(s3, ws, 3));
    assert(apply_writes_from(s3, ws, 3) == s3);
}

impl Can {
    /// Initialize the family's CAN peripheral: enable its clock and pulse
    /// its reset line on the shared clock controller, then take ownership of
    /// the register block. The register writes are exactly those of
    /// [`spec_bring_up_writes`].
    pub fn new(regs: CanRegs, rcc: &mut ClockRegs) -> (r: Can)
        ensures
            *final(rcc) == spec_bring_up(*old(rcc), regs.family),
            r.regs == regs,
    {
        let mask: u32 = 1u32 << can_bit(regs.family);
        rcc.apb1enr1 = rcc.apb1enr1 | mask;
        rcc.apb1rstr1 = rcc.apb1rstr1 | mask;
        rcc.apb1rstr1 = rcc.apb1rstr1 & !mask;
        Can { regs }
    }

    /// The write list [`Can::new`] performs, for a caller that replays the
    /// sequence on the hardware registers itself.
    pub fn bring_up_writes(f: ChipFamily) -> (r: Vec<RegWrite>)
        ensures
            r@ == spec_bring_up_writes(f),
    {
        let mask: u32 = 1u32 << can_bit(f);
        let mut r: Vec<RegWrite> = Vec::new();
        r.push(RegWrite { reg: Reg::Apb1Enr1, set: true, mask });
        r.push(RegWrite { reg: Reg::Apb1Rstr1, set: true, mask });
        r.push(RegWrite { reg: Reg::Apb1Rstr1, set: false, mask });
        proof {
            assert(r@ =~= spec_bring_up_writes(f));
        }
        r
    }

    /// Which CAN driver generation this instance is handed to.
    pub fn kind(&self) -> (r: CanKind)
        ensures
            r == spec_can_kind(self.regs.family),
    {
        can_kind(self.regs.family)
    }

    /// Memory address of the CAN register block the driver library works on.
    pub fn register_block_addr(&self) -> (r: usize)
        ensures
            r == spec_can_addr(self.regs.family),
    {
        can_addr(self.regs.family)
    }

    /// Number of hardware filter banks of the classic controller: 28 on F3
    /// and F4, 14 on L4.
    pub fn num_filter_banks(&self) -> (r: u8)
        requires
            spec_can_kind(self.regs.family) == CanKind::FrameBased,
        ensures
            r == spec_filter_banks(self.regs.family),
    {
        match self.regs.family {
            ChipFamily::L4 => 14,
            _ => 28,
        }
    }

    /// This instance owns the filter banks and may act as the bus master.
    pub fn is_master(&self) -> (r: bool)
        ensures
            r,
    {
        true
    }

    /// Memory address of the message RAM of the flexible-data-rate
    /// controller.
    pub fn message_ram_addr(&self) -> (r: usize)
        requires
            spec_can_kind(self.regs.family) == CanKind::FlexibleData,
        ensures
            r == 0x4000_ac00,
    {
        0x4000_ac00
    }
}

/// Bringing the CAN block up twice leaves the registers exactly as bringing
/// it up once does: the sequence is idempotent.
pub proof fn lemma_bring_up_idempotent(s: ClockRegs, f: ChipFamily)
    ensures
        spec_bring_up(spec_bring_up(s, f), f) == spec_bring_up(s, f),
{
    let m = spec_can_mask(f);
    let e = s.apb1enr1;
    let r0 = s.apb1rstr1;
    assert(((e | m) | m) == (e | m)) by (bit_vector);
    assert(((((r0 | m) & !m) | m) & !m) == ((r0 | m) & !m)) by (bit_vector);
}

/// Bringing the CAN block up sets its clock-enable bit, leaves its reset
/// line deasserted, and touches no other bit of any modelled register.
pub proof fn lemma_bring_up_effect(s: ClockRegs, f: ChipFamily, i: u32)
    requires
        i < 32,
        i != spec_can_bit(f),
    ensures
        spec_bring_up(s, f).apb1enr1 & spec_can_mask(f) == spec_can_mask(f),
        spec_bring_up(s, f).apb1rstr1 & spec_can_mask(f) == 0,
        spec_bring_up(s, f).apb1enr1 & (1u32 << i) == s.apb1enr1 & (1u32 << i),
        spec_bring_up(s, f).apb1rstr1 & (1u32 << i) == s.apb1rstr1 & (1u32 << i),
        spec_bring_up(s, f).pwr_cr3 == s.pwr_cr3,
        spec_bring_up(s, f).ahb1enr == s.ahb1enr,
        spec_bring_up(s, f).ahb1rstr == s.ahb1rstr,
{
    let b = spec_can_bit(f);
    let e = s.apb1enr1;
    let r0 = s.apb1rstr1;
    assert(b < 32);
    assert((e | (1u32 << b)) & (1u32 << b) == (1u32 << b)) by (bit_vector)
        requires
            b < 32,
    ;
    assert(((r0 | (1u32 << b)) & !(1u32 << b)) & (1u32 << b) == 0) by (bit_vector)
        requires
            b < 32,
    ;
    assert((e | (1u32 << b)) & (1u32 << i) == e & (1u32 << i)) by (bit_vector)
        requires
            b < 32,
            i < 32,
            i != b,
    ;
    assert(((r0 | (1u32 << b)) & !(1u32 << b)) & (1u32 << i) == r0 & (1u32 << i)) by (bit_vector)
        requires
            b < 32,
            i < 32,
            i != b,
    ;
}

} // verus!
