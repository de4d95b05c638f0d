//! Bring-up for the two USB-OTG instances (plus the external-PHY variant of
//! the first): voltage-regulator bypass, clock-enable and reset sequencing on
//! the AHB1 bus, and the static capability data (register address, speed
//! class, FIFO depth, endpoint count, PHY type, bus clock rate) that the
//! external USB device-stack library asks a peripheral to declare.

use vstd::prelude::*;

use crate::regs::{apply_write, apply_writes, apply_writes_from, ClockRegs, Reg, RegWrite};

verus! {

/// Power controller CR3: USB voltage-regulator bypass enable (bit 24).
pub const USB33DEN: u32 = 0x0100_0000;

/// AHB1 enable/reset registers: clock-enable and reset fields of the first
/// USB-OTG instance (bit 25).
pub const USB1_OTG_BIT: u32 = 0x0200_0000;

/// AHB1 enable register: ULPI clock-enable field of the first USB-OTG
/// instance (bit 26).
pub const USB1_ULPI_BIT: u32 = 0x0400_0000;

/// AHB1 enable/reset registers: clock-enable and reset fields of the second
/// USB-OTG instance (bit 27).
pub const USB2_OTG_BIT: u32 = 0x0800_0000;

/// Base address of the global control sub-block of the first USB-OTG
/// instance; the device-stack library locates every register from it.
pub const OTG1_HS_BASE: usize = 0x4004_0000;

/// Base address of the global control sub-block of the second USB-OTG
/// instance.
pub const OTG2_HS_BASE: usize = 0x4008_0000;

/// Handle to the global control sub-block of the first USB-OTG instance.
#[derive(Clone, Copy, PartialEq, Eq, Structural, Debug)]
pub struct Otg1HsGlobal {}

/// Handle to the device-mode sub-block of the first USB-OTG instance.
#[derive(Clone, Copy, PartialEq, Eq, Structural, Debug)]
pub struct Otg1HsDevice {}

/// Handle to the power/clock-gating sub-block of the first USB-OTG instance.
#[derive(Clone, Copy, PartialEq, Eq, Structural, Debug)]
pub struct Otg1HsPwrclk {}

/// Handle to the global control sub-block of the second USB-OTG instance.
#[derive(Clone, Copy, PartialEq, Eq, Structural, Debug)]
pub struct Otg2HsGlobal {}

/// Handle to the device-mode sub-block of the second USB-OTG instance.
#[derive(Clone, Copy, PartialEq, Eq, Structural, Debug)]
pub struct Otg2HsDevice {}

/// Handle to the power/clock-gating sub-block of the second USB-OTG
/// instance.
#[derive(Clone, Copy, PartialEq, Eq, Structural, Debug)]
pub struct Otg2HsPwrclk {}

/// USB PHY type a peripheral reports to the device-stack library.
#[derive(Clone, Copy, PartialEq, Eq, Structural, Debug)]
pub enum PhyType {
    /// On-chip full-speed PHY.
    InternalFullSpeed,
    /// On-chip high-speed PHY.
    InternalHighSpeed,
    /// External high-speed PHY behind a ULPI interface.
    ExternalHighSpeed,
}

/// The first USB-OTG instance, on its on-chip PHY.
#[derive(Clone, Copy, PartialEq, Eq, Structural, Debug)]
pub struct USB1 {
    pub usb_global: Otg1HsGlobal,
    pub usb_device: Otg1HsDevice,
    pub usb_pwrclk: Otg1HsPwrclk,
    /// AHB bus clock rate in hertz, supplied by the caller.
    pub hclk: u32,
}

/// The second USB-OTG instance, on its on-chip PHY.
#[derive(Clone, Copy, PartialEq, Eq, Structural, Debug)]
pub struct USB2 {
    pub usb_global: Otg2HsGlobal,
    pub usb_device: Otg2HsDevice,
    pub usb_pwrclk: Otg2HsPwrclk,
    /// AHB bus clock rate in hertz, supplied by the caller.
    pub hclk: u32,
}

/// The clock/reset state after enabling one on-chip USB-OTG instance: the
/// voltage-regulator bypass bit set, the instance's clock-enable bit set,
/// its reset line pulsed (set, then cleared), and nothing else written.
pub open spec fn spec_usb_enable(s: ClockRegs, pwr_mask: u32, en_mask: u32, rst_mask: u32) -> ClockRegs {
    ClockRegs {
        pwr_cr3: s.pwr_cr3 | pwr_mask,
        ahb1enr: s.ahb1enr | en_mask,
        ahb1rstr: (s.ahb1rstr | rst_mask) & !rst_mask,
        ..s
    }
}

/// The write list that enables one on-chip USB-OTG instance, in order: set
/// the regulator-bypass bit, set the clock-enable bit, set the reset bit,
/// clear the reset bit.
pub open spec fn spec_usb_enable_writes(pwr_mask: u32, en_mask: u32, rst_mask: u32) -> Seq<RegWrite> {
    seq![
        RegWrite { reg: Reg::PwrCr3, set: true, mask: pwr_mask },
        RegWrite { reg: Reg::Ahb1Enr, set: true, mask: en_mask },
        RegWrite { reg: Reg::Ahb1Rstr, set: true, mask: rst_mask },
        RegWrite { reg: Reg::Ahb1Rstr, set: false, mask: rst_mask },
    ]
}

/// Performing exactly the enable write list leaves the registers in the
/// enabled state: the state change is that of those four writes and of
/// nothing else.
pub proof fn lemma_usb_enable_writes_apply(s: ClockRegs, pwr_mask: u32, en_mask: u32, rst_mask: u32)
    ensures
        apply_writes(s, spec_usb_enable_writes(pwr_mask, en_mask, rst_mask)) == spec_usb_enable(
            s,
            pwr_mask,
            en_mask,
            rst_mask,
        ),
{
    let ws = spec_usb_enable_writes(pwr_mask, en_mask, rst_mask);
    let s1 = apply_write(s, ws[0]);
    let s2 = apply_write(s1, ws[1]);
    let s3 = apply_write(s2, ws[2]);
    let s4 = apply_write(s3, ws[3]);
    assert(apply_writes_from(s, ws, 0) == apply_writes_from(s1, ws, 1));
    assert(apply_writes_from(s1, ws, 1) == apply_writes_from(s2, ws, 2));
    assert(apply_writes_from(s2, ws, 2) == apply_writes_from(s3, ws, 3));
    assert(apply_writes_from(s3, ws, 3) == apply_writes_from(s4, ws, 4));
    assert(apply_writes_from(s4, ws, 4) == s4);
}

/// Enabling an on-chip USB-OTG instance twice leaves the registers exactly
/// as enabling it once does: the sequence is idempotent.
pub proof fn lemma_usb_enable_idempotent(s: ClockRegs, pwr_mask: u32, en_mask: u32, rst_mask: u32)
    ensures
        spec_usb_enable(spec_usb_enable(s, pwr_mask, en_mask, rst_mask), pwr_mask, en_mask, rst_mask)
            == spec_usb_enable(s, pwr_mask, en_mask, rst_mask),
{
    let p = s.pwr_cr3;
    let e = s.ahb1enr;
    let r0 = s.ahb1rstr;
    assert(((p | pwr_mask) | pwr_mask) == (p | pwr_mask)) by (bit_vector);
    assert(((e | en_mask) | en_mask) == (e | en_mask)) by (bit_vector);
    assert(((((r0 | rst_mask) & !rst_mask) | rst_mask) & !rst_mask) == ((r0 | rst_mask)
        & !rst_mask)) by (bit_vector);
}

/// Enabling an on-chip USB-OTG instance sets exactly the bits of the three
/// masks: every clock-enable bit ends set, the reset line ends deasserted,
/// and a bit outside the masks keeps the value it had. The APB1 registers
/// are not touched at all.
pub proof fn lemma_usb_enable_effect(
    s: ClockRegs,
    pwr_mask: u32,
    en_mask: u32,
    rst_mask: u32,
    i: u32,
)
    requires
        i < 32,
    ensures
        spec_usb_enable(s, pwr_mask, en_mask, rst_mask).pwr_cr3 & pwr_mask == pwr_mask,
        spec_usb_enable(s, pwr_mask, en_mask, rst_mask).ahb1enr & en_mask == en_mask,
        spec_usb_enable(s, pwr_mask, en_mask, rst_mask).ahb1rstr & rst_mask == 0,
        (1u32 << i) & pwr_mask == 0 ==> spec_usb_enable(s, pwr_mask, en_mask, rst_mask).pwr_cr3 & (
        1u32 << i) == s.pwr_cr3 & (1u32 << i),
        (1u32 << i) & en_mask == 0 ==> spec_usb_enable(s, pwr_mask, en_mask, rst_mask).ahb1enr & (
        1u32 << i) == s.ahb1enr & (1u32 << i),
        (1u32 << i) & rst_mask == 0 ==> spec_usb_enable(s, pwr_mask, en_mask, rst_mask).ahb1rstr & (
        1u32 << i) == s.ahb1rstr & (1u32 << i),
        spec_usb_enable(s, pwr_mask, en_mask, rst_mask).apb1enr1 == s.apb1enr1,
        spec_usb_enable(s, pwr_mask, en_mask, rst_mask).apb1rstr1 == s.apb1rstr1,
{
    let p = s.pwr_cr3;
    let e = s.ahb1enr;
    let r0 = s.ahb1rstr;
    assert((p | pwr_mask) & pwr_mask == pwr_mask) by (bit_vector);
    assert((e | en_mask) & en_mask == en_mask) by (bit_vector);
    assert(((r0 | rst_mask) & !rst_mask) & rst_mask == 0) by (bit_vector);
    assert((1u32 << i) & pwr_mask == 0 ==> (p | pwr_mask) & (1u32 << i) == p & (1u32 << i))
        by (bit_vector);
    assert((1u32 << i) & en_mask == 0 ==> (e | en_mask) & (1u32 << i) == e & (1u32 << i))
        by (bit_vector);
    assert((1u32 << i) & rst_mask == 0 ==> ((r0 | rst_mask) & !rst_mask) & (1u32 << i) == r0 & (
    1u32 << i)) by (bit_vector);
}

impl USB1 {
    /// Memory address of the register block the device-stack library works
    /// on.
    pub fn register_block_addr() -> (r: usize)
        ensures
            r == OTG1_HS_BASE,
    {
        OTG1_HS_BASE
    }

    /// This instance is a high-speed-class peripheral.
    pub fn high_speed() -> (r: bool)
        ensures
            r,
    {
        true
    }

    /// Receive FIFO depth, in 32-bit words.
    pub fn fifo_depth_words() -> (r: usize)
        ensures
            r == 1024,
    {
        1024
    }

    /// Number of bidirectional endpoints.
    pub fn endpoint_count() -> (r: usize)
        ensures
            r == 9,
    {
        9
    }

    /// Put the USB voltage regulator in bypass mode, enable the instance's
    /// clock, and pulse its reset line. The register writes are exactly
    /// those of [`USB1::enable_writes`]; on the hardware they run inside a
    /// critical section.
    pub fn enable(regs: &mut ClockRegs)
        ensures
            *final(regs) == spec_usb_enable(*old(regs), USB33DEN, USB1_OTG_BIT, USB1_OTG_BIT),
    {
        regs.pwr_cr3 = regs.pwr_cr3 | USB33DEN;
        regs.ahb1enr = regs.ahb1enr | USB1_OTG_BIT;
        regs.ahb1rstr = regs.ahb1rstr | USB1_OTG_BIT;
        regs.ahb1rstr = regs.ahb1rstr & !USB1_OTG_BIT;
    }

    /// The write list [`USB1::enable`] performs, for a caller that replays
    /// the sequence on the hardware registers itself.
    pub fn enable_writes() -> (r: Vec<RegWrite>)
        ensures
            r@ == spec_usb_enable_writes(USB33DEN, USB1_OTG_BIT, USB1_OTG_BIT),
    {
        let mut r: Vec<RegWrite> = Vec::new();
        r.push(RegWrite { reg: Reg::PwrCr3, set: true, mask: USB33DEN });
        r.push(RegWrite { reg: Reg::Ahb1Enr, set: true, mask: USB1_OTG_BIT });
        r.push(RegWrite { reg: Reg::Ahb1Rstr, set: true, mask: USB1_OTG_BIT });
        r.push(RegWrite { reg: Reg::Ahb1Rstr, set: false, mask: USB1_OTG_BIT });
        proof {
            assert(r@ =~= spec_usb_enable_writes(USB33DEN, USB1_OTG_BIT, USB1_OTG_BIT));
        }
        r
    }

    /// The AHB bus clock rate this instance was constructed with.
    pub fn ahb_frequency_hz(&self) -> (r: u32)
        ensures
            r == self.hclk,
    {
        self.hclk
    }

    /// The PHY this instance drives: the on-chip one. Never the external
    /// high-speed PHY, which only the ULPI variant reports.
    pub fn phy_type(&self) -> (r: PhyType)
        ensures
            r == PhyType::InternalFullSpeed,
    {
        PhyType::InternalFullSpeed
    }
}

impl USB2 {
    /// Memory address of the register block the device-stack library works
    /// on.
    pub fn register_block_addr() -> (r: usize)
        ensures
            r == OTG2_HS_BASE,
    {
        OTG2_HS_BASE
    }

    /// This instance is a high-speed-class peripheral.
    pub fn high_speed() -> (r: bool)
        ensures
            r,
    {
        true
    }

    /// Receive FIFO depth, in 32-bit words.
    pub fn fifo_depth_words() -> (r: usize)
        ensures
            r == 1024,
    {
        1024
    }

    /// Number of bidirectional endpoints.
    pub fn endpoint_count() -> (r: usize)
        ensures
            r == 9,
    {
        9
    }

    /// Put the USB voltage regulator in bypass mode, enable the instance's
    /// clock, and pulse its reset line. The register writes are exactly
    /// those of [`USB2::enable_writes`]; on the hardware they run inside a
    /// critical section.
    pub fn enable(regs: &mut ClockRegs)
        ensures
            *final(regs) == spec_usb_enable(*old(regs), USB33DEN, USB2_OTG_BIT, USB2_OTG_BIT),
    {
        regs.pwr_cr3 = regs.pwr_cr3 | USB33DEN;
        regs.ahb1enr = regs.ahb1enr | USB2_OTG_BIT;
        regs.ahb1rstr = regs.ahb1rstr | USB2_OTG_BIT;
        regs.ahb1rstr = regs.ahb1rstr & !USB2_OTG_BIT;
    }

    /// The write list [`USB2::enable`] performs, for a caller that replays
    /// the sequence on the hardware registers itself.
    pub fn enable_writes() -> (r: Vec<RegWrite>)
        ensures
            r@ == spec_usb_enable_writes(USB33DEN, USB2_OTG_BIT, USB2_OTG_BIT),
    {
        let mut r: Vec<RegWrite> = Vec::new();
        r.push(RegWrite { reg: Reg::PwrCr3, set: true, mask: USB33DEN });
        r.push(RegWrite { reg: Reg::Ahb1Enr, set: true, mask: USB2_OTG_BIT });
        r.push(RegWrite { reg: Reg::Ahb1Rstr, set: true, mask: USB2_OTG_BIT });
        r.push(RegWrite { reg: Reg::Ahb1Rstr, set: false, mask: USB2_OTG_BIT });
        proof {
            assert(r@ =~= spec_usb_enable_writes(USB33DEN, USB2_OTG_BIT, USB2_OTG_BIT));
        }
        r
    }

    /// The AHB bus clock rate this instance was constructed with.
    pub fn ahb_frequency_hz(&self) -> (r: u32)
        ensures
            r == self.hclk,
    {
        self.hclk
    }

    /// The PHY this instance drives: the on-chip one. Never the external
    /// high-speed PHY, which only the ULPI variant reports.
    pub fn phy_type(&self) -> (r: PhyType)
        ensures
            r == PhyType::InternalFullSpeed,
    {
        PhyType::InternalFullSpeed
    }
}

/// A frequency in hertz.
#[derive(Clone, Copy, PartialEq, Eq, Structural, Debug)]
pub struct Hertz(pub u32);

/// Ownership token for the clock/reset domain of the first USB-OTG
/// instance, handed over by the platform's clock-management collaborator.
#[derive(Clone, Copy, PartialEq, Eq, Structural, Debug)]
pub struct Usb1OtgPrec {}

/// Pin A3 in its ULPI alternate function.
#[derive(Clone, Copy, PartialEq, Eq, Structural, Debug)]
pub struct PA3 {}

/// Pin A5 in its ULPI alternate function.
#[derive(Clone, Copy, PartialEq, Eq, Structural, Debug)]
pub struct PA5 {}

/// Pin B0 in its ULPI alternate function.
#[derive(Clone, Copy, PartialEq, Eq, Structural, Debug)]
pub struct PB0 {}

/// Pin B1 in its ULPI alternate function.
#[derive(Clone, Copy, PartialEq, Eq, Structural, Debug)]
pub struct PB1 {}

/// Pin B5 in its ULPI alternate function.
#[derive(Clone, Copy, PartialEq, Eq, Structural, Debug)]
pub struct PB5 {}

/// Pin B10 in its ULPI alternate function.
#[derive(Clone, Copy, PartialEq, Eq, Structural, Debug)]
pub struct PB10 {}

/// Pin B11 in its ULPI alternate function.
#[derive(Clone, Copy, PartialEq, Eq, Structural, Debug)]
pub struct PB11 {}

/// Pin B12 in its ULPI alternate function.
#[derive(Clone, Copy, PartialEq, Eq, Structural, Debug)]
pub struct PB12 {}

/// Pin B13 in its ULPI alternate function.
#[derive(Clone, Copy, PartialEq, Eq, Structural, Debug)]
pub struct PB13 {}

/// Pin C0 in its ULPI alternate function.
#[derive(Clone, Copy, PartialEq, Eq, Structural, Debug)]
pub struct PC0 {}

/// Pin C2 in its ULPI alternate function.
#[derive(Clone, Copy, PartialEq, Eq, Structural, Debug)]
pub struct PC2 {}

/// Pin C3 in its ULPI alternate function.
#[derive(Clone, Copy, PartialEq, Eq, Structural, Debug)]
pub struct PC3 {}

/// Pin H4 in its ULPI alternate function.
#[derive(Clone, Copy, PartialEq, Eq, Structural, Debug)]
pub struct PH4 {}

/// Pin I11 in its ULPI alternate function.
#[derive(Clone, Copy, PartialEq, Eq, Structural, Debug)]
pub struct PI11 {}

/// Which of the two alternate physical pins carries the ULPI "direction"
/// signal. The choice is fixed at construction and carries the concrete pin;
/// nothing else in this crate behaves differently by variant.
#[derive(Clone, Copy, PartialEq, Eq, Structural, Debug)]
pub enum Usb1UlpiDirPin {
    PC2(PC2),
    PI11(PI11),
}

impl From<PI11> for Usb1UlpiDirPin {
    /// Tag pin I11 as the carrier of the "direction" signal.
    fn from(v: PI11) -> (r: Self) {
        Usb1UlpiDirPin::PI11(v)
    }
}

impl vstd::std_specs::convert::FromSpecImpl<PI11> for Usb1UlpiDirPin {
    open spec fn obeys_from_spec() -> bool {
        true
    }

    open spec fn from_spec(v: PI11) -> Self {
        Usb1UlpiDirPin::PI11(v)
    }
}

impl From<PC2> for Usb1UlpiDirPin {
    /// Tag pin C2 as the carrier of the "direction" signal.
    fn from(v: PC2) -> (r: Self) {
        Usb1UlpiDirPin::PC2(v)
    }
}

impl vstd::std_specs::convert::FromSpecImpl<PC2> for Usb1UlpiDirPin {
    open spec fn obeys_from_spec() -> bool {
        true
    }

    open spec fn from_spec(v: PC2) -> Self {
        Usb1UlpiDirPin::PC2(v)
    }
}

/// Which of the two alternate physical pins carries the ULPI "next" signal.
#[derive(Clone, Copy, PartialEq, Eq, Structural, Debug)]
pub enum Usb1UlpiNxtPin {
    PC3(PC3),
    PH4(PH4),
}

impl From<PH4> for Usb1UlpiNxtPin {
    /// Tag pin H4 as the carrier of the "next" signal.
    fn from(v: PH4) -> (r: Self) {
        Usb1UlpiNxtPin::PH4(v)
    }
}

impl vstd::std_specs::convert::FromSpecImpl<PH4> for Usb1UlpiNxtPin {
    open spec fn obeys_from_spec() -> bool {
        true
    }

    open spec fn from_spec(v: PH4) -> Self {
        Usb1UlpiNxtPin::PH4(v)
    }
}

impl From<PC3> for Usb1UlpiNxtPin {
    /// Tag pin C3 as the carrier of the "next" signal.
    fn from(v: PC3) -> (r: Self) {
        Usb1UlpiNxtPin::PC3(v)
    }
}

impl vstd::std_specs::convert::FromSpecImpl<PC3> for Usb1UlpiNxtPin {
    open spec fn obeys_from_spec() -> bool {
        true
    }

    open spec fn from_spec(v: PC3) -> Self {
        Usb1UlpiNxtPin::PC3(v)
    }
}

/// Converting a concrete pin into its pin-role tagged choice is lossless:
/// the choice carries the very pin it was made from, so matching it back out
/// recovers the original pin value exactly.
pub proof fn lemma_pin_round_trip(c2: PC2, i11: PI11, c3: PC3, h4: PH4)
    ensures
        <Usb1UlpiDirPin as vstd::std_specs::convert::FromSpec<PC2>>::from_spec(c2)
            == Usb1UlpiDirPin::PC2(c2),
        <Usb1UlpiDirPin as vstd::std_specs::convert::FromSpec<PI11>>::from_spec(i11)
            == Usb1UlpiDirPin::PI11(i11),
        <Usb1UlpiNxtPin as vstd::std_specs::convert::FromSpec<PC3>>::from_spec(c3)
            == Usb1UlpiNxtPin::PC3(c3),
        <Usb1UlpiNxtPin as vstd::std_specs::convert::FromSpec<PH4>>::from_spec(h4)
            == Usb1UlpiNxtPin::PH4(h4),
{
}

/// The first USB-OTG instance wired to an external high-speed PHY over the
/// ULPI pin set.
#[derive(Clone, Copy, PartialEq, Eq, Structural, Debug)]
pub struct USB1_ULPI {
    pub usb_global: Otg1HsGlobal,
    pub usb_device: Otg1HsDevice,
    pub usb_pwrclk: Otg1HsPwrclk,
    pub prec: Usb1OtgPrec,
    /// AHB bus clock rate, supplied by the caller.
    pub hclk: Hertz,
    pub ulpi_clk: PA5,
    pub ulpi_dir: Usb1UlpiDirPin,
    pub ulpi_nxt: Usb1UlpiNxtPin,
    pub ulpi_stp: PC0,
    pub ulpi_d0: PA3,
    pub ulpi_d1: PB0,
    pub ulpi_d2: PB1,
    pub ulpi_d3: PB10,
    pub ulpi_d4: PB11,
    pub ulpi_d5: PB12,
    pub ulpi_d6: PB13,
    pub ulpi_d7: PB5,
}

/// The clock/reset state after enabling the ULPI variant: the instance's
/// clock-enable bit and the ULPI clock-enable bit set, the reset line pulsed
/// (set, then cleared), and nothing else written. The regulator-bypass bit
/// is not needed with an external PHY.
pub open spec fn spec_ulpi_enable(s: ClockRegs) -> ClockRegs {
    ClockRegs {
        ahb1enr: (s.ahb1enr | USB1_OTG_BIT) | USB1_ULPI_BIT,
        ahb1rstr: (s.ahb1rstr | USB1_OTG_BIT) & !USB1_OTG_BIT,
        ..s
    }
}

/// The write list that enables the ULPI variant, in order: set the
/// clock-enable bit, set the ULPI clock-enable bit, set the reset bit,
/// clear the reset bit.
pub open spec fn spec_ulpi_enable_writes() -> Seq<RegWrite> {
    seq![
        RegWrite { reg: Reg::Ahb1Enr, set: true, mask: USB1_OTG_BIT },
        RegWrite { reg: Reg::Ahb1Enr, set: true, mask: USB1_ULPI_BIT },
        RegWrite { reg: Reg::Ahb1Rstr, set: true, mask: USB1_OTG_BIT },
        RegWrite { reg: Reg::Ahb1Rstr, set: false, mask: USB1_OTG_BIT },
    ]
}

/// Performing exactly the ULPI enable write list leaves the registers in
/// the enabled state: the state change is that of those four writes and of
/// nothing else.
pub proof fn lemma_ulpi_enable_writes_apply(s: ClockRegs)
    ensures
        apply_writes(s, spec_ulpi_enable_writes()) == spec_ulpi_enable(s),
{
    let ws = spec_ulpi_enable_writes();
    let s1 = apply_write(s, ws[0]);
    let s2 = apply_write(s1, ws[1]);
    let s3 = apply_write(s2, ws[2]);
    let s4 = apply_write(s3, ws[3]);
    assert(apply_writes_from(s, ws, 0) == apply_writes_from(s1, ws, 1));
    assert(apply_writes_from(s1, ws, 1) == apply_writes_from(s2, ws, 2));
    assert(apply_writes_from(s2, ws, 2) == apply_writes_from(s3, ws, 3));
    assert(apply_writes_from(s3, ws, 3) == apply_writes_from(s4, ws, 4));
    assert(apply_writes_from(s4, ws, 4) == s4);
}

/// Enabling the ULPI variant twice leaves the registers exactly as enabling
/// it once does: the sequence is idempotent.
pub proof fn lemma_ulpi_enable_idempotent(s: ClockRegs)
    ensures
        spec_ulpi_enable(spec_ulpi_enable(s)) == spec_ulpi_enable(s),
{
    let e = s.ahb1enr;
    let r0 = s.ahb1rstr;
    let otg = USB1_OTG_BIT;
    let ulpi = USB1_ULPI_BIT;
    assert(((((e | otg) | ulpi) | otg) | ulpi) == ((e | otg) | ulpi)) by (bit_vector);
    assert(((((r0 | otg) & !otg) | otg) & !otg) == ((r0 | otg) & !otg)) by (bit_vector);
}

/// Enabling the ULPI variant sets exactly its two clock-enable bits and
/// deasserts its reset line: a bit outside those fields keeps the value it
/// had, and no other modelled register is touched.
pub proof fn lemma_ulpi_enable_effect(s: ClockRegs, i: u32)
    requires
        i < 32,
        i != 25,
        i != 26,
    ensures
        spec_ulpi_enable(s).ahb1enr & (USB1_OTG_BIT | USB1_ULPI_BIT) == (USB1_OTG_BIT
            | USB1_ULPI_BIT),
        spec_ulpi_enable(s).ahb1rstr & USB1_OTG_BIT == 0,
        spec_ulpi_enable(s).ahb1enr & (1u32 << i) == s.ahb1enr & (1u32 << i),
        spec_ulpi_enable(s).ahb1rstr & (1u32 << i) == s.ahb1rstr & (1u32 << i),
        spec_ulpi_enable(s).pwr_cr3 == s.pwr_cr3,
        spec_ulpi_enable(s).apb1enr1 == s.apb1enr1,
        spec_ulpi_enable(s).apb1rstr1 == s.apb1rstr1,
{
    let e = s.ahb1enr;
    let r0 = s.ahb1rstr;
    assert(((e | 0x0200_0000u32) | 0x0400_0000u32) & (0x0200_0000u32 | 0x0400_0000u32) == (
    0x0200_0000u32 | 0x0400_0000u32)) by (bit_vector);
    assert(((r0 | 0x0200_0000u32) & !0x0200_0000u32) & 0x0200_0000u32 == 0) by (bit_vector);
    assert(((e | 0x0200_0000u32) | 0x0400_0000u32) & (1u32 << i) == e & (1u32 << i))
        by (bit_vector)
        requires
            i < 32,
            i != 25,
            i != 26,
    ;
    assert(((r0 | 0x0200_0000u32) & !0x0200_0000u32) & (1u32 << i) == r0 & (1u32 << i))
        by (bit_vector)
        requires
            i < 32,
            i != 25,
    ;
}

impl USB1_ULPI {
    /// Memory address of the register block the device-stack library works
    /// on: the same block as [`USB1`], driven through the external PHY.
    pub fn register_block_addr() -> (r: usize)
        ensures
            r == OTG1_HS_BASE,
    {
        OTG1_HS_BASE
    }

    /// This instance is a high-speed-class peripheral.
    pub fn high_speed() -> (r: bool)
        ensures
            r,
    {
        true
    }

    /// Receive FIFO depth, in 32-bit words.
    pub fn fifo_depth_words() -> (r: usize)
        ensures
            r == 1024,
    {
        1024
    }

    /// Number of bidirectional endpoints.
    pub fn endpoint_count() -> (r: usize)
        ensures
            r == 9,
    {
        9
    }

    /// Enable the instance's clock and the ULPI clock, then pulse the reset
    /// line. The register writes are exactly those of
    /// [`USB1_ULPI::enable_writes`]; on the hardware they run inside a
    /// critical section.
    pub fn enable(regs: &mut ClockRegs)
        ensures
            *final(regs) == spec_ulpi_enable(*old(regs)),
    {
        regs.ahb1enr = regs.ahb1enr | USB1_OTG_BIT;
        regs.ahb1enr = regs.ahb1enr | USB1_ULPI_BIT;
        regs.ahb1rstr = regs.ahb1rstr | USB1_OTG_BIT;
        regs.ahb1rstr = regs.ahb1rstr & !USB1_OTG_BIT;
    }

    /// The write list [`USB1_ULPI::enable`] performs, for a caller that
    /// replays the sequence on the hardware registers itself.
    pub fn enable_writes() -> (r: Vec<RegWrite>)
        ensures
            r@ == spec_ulpi_enable_writes(),
    {
        let mut r: Vec<RegWrite> = Vec::new();
        r.push(RegWrite { reg: Reg::Ahb1Enr, set: true, mask: USB1_OTG_BIT });
        r.push(RegWrite { reg: Reg::Ahb1Enr, set: true, mask: USB1_ULPI_BIT });
        r.push(RegWrite { reg: Reg::Ahb1Rstr, set: true, mask: USB1_OTG_BIT });
        r.push(RegWrite { reg: Reg::Ahb1Rstr, set: false, mask: USB1_OTG_BIT });
        proof {
            assert(r@ =~= spec_ulpi_enable_writes());
        }
        r
    }

    /// The AHB bus clock rate this instance was constructed with.
    pub fn ahb_frequency_hz(&self) -> (r: u32)
        ensures
            r == self.hclk.0,
    {
        self.hclk.0
    }

    /// The PHY this variant drives: always the external high-speed PHY
    /// behind the ULPI interface.
    pub fn phy_type(&self) -> (r: PhyType)
        ensures
            r == PhyType::ExternalHighSpeed,
    {
        PhyType::ExternalHighSpeed
    }
}

} // verus!
