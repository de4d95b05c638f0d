use stm32_bringup::regs::{apply_all, ClockRegs, Reg, RegWrite};
use stm32_bringup::usb_otg::{
    Hertz, Otg1HsDevice, Otg1HsGlobal, Otg1HsPwrclk, Otg2HsDevice, Otg2HsGlobal, Otg2HsPwrclk,
    PhyType, Usb1OtgPrec, Usb1UlpiDirPin, Usb1UlpiNxtPin, PA3, PA5, PB0, PB1, PB10, PB11, PB12,
    PB13, PB5, PC0, PC2, PC3, PH4, PI11, USB1, USB1_ULPI, USB2,
};

fn zero_regs() -> ClockRegs {
    ClockRegs { pwr_cr3: 0, ahb1enr: 0, ahb1rstr: 0, apb1enr1: 0, apb1rstr1: 0 }
}

fn ulpi_instance(hz: u32) -> USB1_ULPI {
    USB1_ULPI {
        usb_global: Otg1HsGlobal {},
        usb_device: Otg1HsDevice {},
        usb_pwrclk: Otg1HsPwrclk {},
        prec: Usb1OtgPrec {},
        hclk: Hertz(hz),
        ulpi_clk: PA5 {},
        ulpi_dir: Usb1UlpiDirPin::from(PC2 {}),
        ulpi_nxt: Usb1UlpiNxtPin::from(PC3 {}),
        ulpi_stp: PC0 {},
        ulpi_d0: PA3 {},
        ulpi_d1: PB0 {},
        ulpi_d2: PB1 {},
        ulpi_d3: PB10 {},
        ulpi_d4: PB11 {},
        ulpi_d5: PB12 {},
        ulpi_d6: PB13 {},
        ulpi_d7: PB5 {},
    }
}

#[test]
fn usb1_scenario_48_mhz() {
    // Construct the first USB instance with a 48 MHz bus clock; its clock
    // accessor reports exactly that rate, and enabling it sets the
    // regulator-bypass bit, the clock-enable bit, and pulses the reset bit,
    // with no other register writes.
    let usb = USB1 {
        usb_global: Otg1HsGlobal {},
        usb_device: Otg1HsDevice {},
        usb_pwrclk: Otg1HsPwrclk {},
        hclk: 48_000_000,
    };
    assert_eq!(usb.ahb_frequency_hz(), 48_000_000);

    let mut regs = zero_regs();
    USB1::enable(&mut regs);
    assert_eq!(regs.pwr_cr3, 1 << 24);
    assert_eq!(regs.ahb1enr, 1 << 25);
    assert_eq!(regs.ahb1rstr, 0);
    assert_eq!(regs.apb1enr1, 0);
    assert_eq!(regs.apb1rstr1, 0);

    let ws = USB1::enable_writes();
    assert_eq!(
        ws,
        vec![
            RegWrite { reg: Reg::PwrCr3, set: true, mask: 1 << 24 },
            RegWrite { reg: Reg::Ahb1Enr, set: true, mask: 1 << 25 },
            RegWrite { reg: Reg::Ahb1Rstr, set: true, mask: 1 << 25 },
            RegWrite { reg: Reg::Ahb1Rstr, set: false, mask: 1 << 25 },
        ]
    );
}

#[test]
fn usb_capabilities_fixed() {
    assert_eq!(USB1::fifo_depth_words(), 1024);
    assert_eq!(USB2::fifo_depth_words(), 1024);
    assert_eq!(USB1_ULPI::fifo_depth_words(), 1024);
    assert_eq!(USB1::endpoint_count(), 9);
    assert_eq!(USB2::endpoint_count(), 9);
    assert_eq!(USB1_ULPI::endpoint_count(), 9);
    assert!(USB1::high_speed());
    assert!(USB2::high_speed());
    assert!(USB1_ULPI::high_speed());
    assert_eq!(USB1::register_block_addr(), 0x4004_0000);
    assert_eq!(USB2::register_block_addr(), 0x4008_0000);
    assert_eq!(USB1_ULPI::register_block_addr(), 0x4004_0000);
}

#[test]
fn phy_types_per_variant() {
    let usb1 = USB1 {
        usb_global: Otg1HsGlobal {},
        usb_device: Otg1HsDevice {},
        usb_pwrclk: Otg1HsPwrclk {},
        hclk: 100_000_000,
    };
    let usb2 = USB2 {
        usb_global: Otg2HsGlobal {},
        usb_device: Otg2HsDevice {},
        usb_pwrclk: Otg2HsPwrclk {},
        hclk: 100_000_000,
    };
    let ulpi = ulpi_instance(100_000_000);
    assert_eq!(usb1.phy_type(), PhyType::InternalFullSpeed);
    assert_eq!(usb2.phy_type(), PhyType::InternalFullSpeed);
    assert_eq!(ulpi.phy_type(), PhyType::ExternalHighSpeed);
    assert_ne!(usb1.phy_type(), PhyType::ExternalHighSpeed);
    assert_ne!(usb2.phy_type(), PhyType::ExternalHighSpeed);
}

#[test]
fn usb2_enable_touches_its_own_bits() {
    let mut regs = ClockRegs {
        pwr_cr3: 0x0000_00ff,
        ahb1enr: 0x0000_0001,
        ahb1rstr: 0xffff_ffff,
        apb1enr1: 0x1111_1111,
        apb1rstr1: 0x2222_2222,
    };
    USB2::enable(&mut regs);
    assert_eq!(regs.pwr_cr3, 0x0000_00ff | (1 << 24));
    assert_eq!(regs.ahb1enr, 0x0000_0001 | (1 << 27));
    assert_eq!(regs.ahb1rstr, 0xffff_ffff & !(1u32 << 27));
    assert_eq!(regs.apb1enr1, 0x1111_1111);
    assert_eq!(regs.apb1rstr1, 0x2222_2222);
}

#[test]
fn usb_enable_is_idempotent() {
    let mut once = ClockRegs {
        pwr_cr3: 3,
        ahb1enr: 5,
        ahb1rstr: 7,
        apb1enr1: 9,
        apb1rstr1: 11,
    };
    let mut twice = once;
    USB1::enable(&mut once);
    USB1::enable(&mut twice);
    USB1::enable(&mut twice);
    assert_eq!(once, twice);

    let mut u_once = zero_regs();
    let mut u_twice = zero_regs();
    USB1_ULPI::enable(&mut u_once);
    USB1_ULPI::enable(&mut u_twice);
    USB1_ULPI::enable(&mut u_twice);
    assert_eq!(u_once, u_twice);
}

#[test]
fn ulpi_enable_sets_both_clock_bits() {
    let mut regs = zero_regs();
    regs.pwr_cr3 = 0xdead_beef;
    USB1_ULPI::enable(&mut regs);
    assert_eq!(regs.ahb1enr, (1 << 25) | (1 << 26));
    assert_eq!(regs.ahb1rstr, 0);
    // The ULPI variant leaves the voltage regulator alone.
    assert_eq!(regs.pwr_cr3, 0xdead_beef);

    let ws = USB1_ULPI::enable_writes();
    assert_eq!(
        ws,
        vec![
            RegWrite { reg: Reg::Ahb1Enr, set: true, mask: 1 << 25 },
            RegWrite { reg: Reg::Ahb1Enr, set: true, mask: 1 << 26 },
            RegWrite { reg: Reg::Ahb1Rstr, set: true, mask: 1 << 25 },
            RegWrite { reg: Reg::Ahb1Rstr, set: false, mask: 1 << 25 },
        ]
    );
}

#[test]
fn usb_enable_writes_match_enable() {
    let mut by_enable = zero_regs();
    let mut by_plan = zero_regs();
    USB1::enable(&mut by_enable);
    apply_all(&mut by_plan, &USB1::enable_writes());
    assert_eq!(by_enable, by_plan);

    let mut u_by_enable = zero_regs();
    let mut u_by_plan = zero_regs();
    USB1_ULPI::enable(&mut u_by_enable);
    apply_all(&mut u_by_plan, &USB1_ULPI::enable_writes());
    assert_eq!(u_by_enable, u_by_plan);
}

#[test]
fn dir_pin_round_trip() {
    match Usb1UlpiDirPin::from(PC2 {}) {
        Usb1UlpiDirPin::PC2(p) => assert_eq!(p, PC2 {}),
        Usb1UlpiDirPin::PI11(_) => panic!("wrong variant"),
    }
    match Usb1UlpiDirPin::from(PI11 {}) {
        Usb1UlpiDirPin::PI11(p) => assert_eq!(p, PI11 {}),
        Usb1UlpiDirPin::PC2(_) => panic!("wrong variant"),
    }
}

#[test]
fn nxt_pin_round_trip() {
    match Usb1UlpiNxtPin::from(PC3 {}) {
        Usb1UlpiNxtPin::PC3(p) => assert_eq!(p, PC3 {}),
        Usb1UlpiNxtPin::PH4(_) => panic!("wrong variant"),
    }
    match Usb1UlpiNxtPin::from(PH4 {}) {
        Usb1UlpiNxtPin::PH4(p) => assert_eq!(p, PH4 {}),
        Usb1UlpiNxtPin::PC3(_) => panic!("wrong variant"),
    }
}

#[test]
fn ulpi_clock_rate_in_hertz() {
    let ulpi = ulpi_instance(216_000_000);
    assert_eq!(ulpi.ahb_frequency_hz(), 216_000_000);
}
