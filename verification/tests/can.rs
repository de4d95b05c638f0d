use stm32_bringup::can::{Can, CanRegs};
use stm32_bringup::family::{can_kind, CanKind, ChipFamily};
use stm32_bringup::regs::{apply_all, ClockRegs, Reg, RegWrite};

fn zero_regs() -> ClockRegs {
    ClockRegs { pwr_cr3: 0, ahb1enr: 0, ahb1rstr: 0, apb1enr1: 0, apb1rstr1: 0 }
}

#[test]
fn filter_banks_per_family() {
    let f3 = Can { regs: CanRegs { family: ChipFamily::F3 } };
    let f4 = Can { regs: CanRegs { family: ChipFamily::F4 } };
    let l4 = Can { regs: CanRegs { family: ChipFamily::L4 } };
    assert_eq!(f3.num_filter_banks(), 28);
    assert_eq!(f4.num_filter_banks(), 28);
    assert_eq!(l4.num_filter_banks(), 14);
}

#[test]
fn can_kind_per_family() {
    assert_eq!(can_kind(ChipFamily::F3), CanKind::FrameBased);
    assert_eq!(can_kind(ChipFamily::F4), CanKind::FrameBased);
    assert_eq!(can_kind(ChipFamily::L4), CanKind::FrameBased);
    assert_eq!(can_kind(ChipFamily::G0), CanKind::FlexibleData);
    assert_eq!(can_kind(ChipFamily::G4), CanKind::FlexibleData);
    assert_eq!(can_kind(ChipFamily::L5), CanKind::FlexibleData);
    assert_eq!(can_kind(ChipFamily::H7), CanKind::FlexibleData);
}

#[test]
fn can_new_writes_enable_and_reset_pulse() {
    let mut rcc = zero_regs();
    let can = Can::new(CanRegs { family: ChipFamily::F3 }, &mut rcc);
    assert_eq!(rcc.apb1enr1, 1 << 25);
    assert_eq!(rcc.apb1rstr1, 0);
    assert_eq!(rcc.pwr_cr3, 0);
    assert_eq!(rcc.ahb1enr, 0);
    assert_eq!(rcc.ahb1rstr, 0);
    assert_eq!(can.regs.family, ChipFamily::F3);
}

#[test]
fn can_new_preserves_other_bits() {
    let mut rcc = ClockRegs {
        pwr_cr3: 0x5555_5555,
        ahb1enr: 0xaaaa_aaaa,
        ahb1rstr: 0x0f0f_0f0f,
        apb1enr1: 0x0000_0003,
        apb1rstr1: 0x8000_0001,
    };
    Can::new(CanRegs { family: ChipFamily::H7 }, &mut rcc);
    // H7 CAN sits at bit 8 of the APB1 enable/reset registers.
    assert_eq!(rcc.apb1enr1, 0x0000_0003 | (1 << 8));
    assert_eq!(rcc.apb1rstr1, 0x8000_0001 & !(1u32 << 8));
    assert_eq!(rcc.pwr_cr3, 0x5555_5555);
    assert_eq!(rcc.ahb1enr, 0xaaaa_aaaa);
    assert_eq!(rcc.ahb1rstr, 0x0f0f_0f0f);
}

#[test]
fn can_bring_up_is_idempotent() {
    let mut once = ClockRegs {
        pwr_cr3: 1,
        ahb1enr: 2,
        ahb1rstr: 3,
        apb1enr1: 0x1234_5678,
        apb1rstr1: 0x8765_4321,
    };
    let mut twice = once;
    Can::new(CanRegs { family: ChipFamily::G0 }, &mut once);
    Can::new(CanRegs { family: ChipFamily::G0 }, &mut twice);
    Can::new(CanRegs { family: ChipFamily::G0 }, &mut twice);
    assert_eq!(once, twice);
}

#[test]
fn can_bring_up_writes_exact() {
    let ws = Can::bring_up_writes(ChipFamily::L4);
    let m = 1u32 << 25;
    assert_eq!(
        ws,
        vec![
            RegWrite { reg: Reg::Apb1Enr1, set: true, mask: m },
            RegWrite { reg: Reg::Apb1Rstr1, set: true, mask: m },
            RegWrite { reg: Reg::Apb1Rstr1, set: false, mask: m },
        ]
    );
}

#[test]
fn can_bring_up_writes_match_new() {
    let mut by_new = zero_regs();
    let mut by_plan = zero_regs();
    Can::new(CanRegs { family: ChipFamily::L5 }, &mut by_new);
    let ws = Can::bring_up_writes(ChipFamily::L5);
    apply_all(&mut by_plan, &ws);
    assert_eq!(by_new, by_plan);
}

#[test]
fn can_addresses_and_master() {
    let f3 = Can { regs: CanRegs { family: ChipFamily::F3 } };
    let h7 = Can { regs: CanRegs { family: ChipFamily::H7 } };
    assert_eq!(f3.register_block_addr(), 0x4000_6400);
    assert_eq!(h7.register_block_addr(), 0x4000_a000);
    assert_eq!(h7.message_ram_addr(), 0x4000_ac00);
    assert!(f3.is_master());
    assert_eq!(f3.kind(), CanKind::FrameBased);
    assert_eq!(h7.kind(), CanKind::FlexibleData);
}
