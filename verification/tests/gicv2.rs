//! Tests for the GICv2 driver and its register model.

use arm_gic::gicv2::registers::{Gicc, Gicd, GicdCtlr, Typer, GICD_CTLR_ENABLE_GRP0};
use arm_gic::gicv2::{GicV2, SgiTarget, SgiTargetListFilter};
use arm_gic::{IntId, Trigger};

/// Returns a driver over zeroed blocks whose distributor implements all 1024
/// interrupt lines.
fn full_gic() -> GicV2 {
    GicV2::new(Gicd::new(Typer(0b11111)), Gicc::new(1023))
}

#[test]
fn cpu_count() {
    assert_eq!(Typer(0).cpu_count(), 1);
    assert_eq!(Typer(7 << 5).cpu_count(), 8);
}

#[test]
fn it_lines() {
    assert_eq!(Typer(0).num_irqs(), 32);
    assert_eq!(Typer(0b00011).num_irqs(), 128);
    assert_eq!(Typer(0b11111).num_irqs(), 1024);
}

#[test]
fn lockable_spis_and_security() {
    assert_eq!(Typer(0b11111 << 11).lockable_spi_count(), 31);
    assert_eq!(Typer(0).lockable_spi_count(), 0);
    assert!(Typer(1 << 10).has_security_extension());
    assert!(!Typer(0).has_security_extension());
}

#[test]
fn setup_configures_groups_and_cpu_interface() {
    // Over a zeroed fake register block, setup must enable the CPU
    // interface, open the priority mask and put everything into group 1.
    let mut gic = GicV2::new(Gicd::new(Typer(0)), Gicc::new(0));
    gic.setup();
    assert_eq!(gic.gicc.read_ctlr(), 0b1);
    assert_eq!(gic.gicc.read_pmr(), 0xff);
    for i in 0..32 {
        assert_eq!(gic.gicd.read_igroupr(i), 0xffffffff);
    }
    assert_eq!(gic.gicd.read_ctlr().bits, 0b10);
}

#[test]
fn enable_interrupt_sets_and_clears_bit() {
    let mut gic = full_gic();
    let intid = IntId::spi(9).unwrap();
    // Raw id 41: register 1, bit 9.
    assert_eq!(gic.enable_interrupt(intid, true), Ok(()));
    assert_eq!(gic.gicd.read_isenabler(1), 1 << 9);
    assert_eq!(gic.enable_interrupt(intid, false), Ok(()));
    assert_eq!(gic.gicd.read_isenabler(1), 0);
}

#[test]
fn enable_interrupt_reports_unimplemented_line() {
    // Only the first 32 lines exist, so an SPI cannot latch its enable bit.
    let mut gic = GicV2::new(Gicd::new(Typer(0)), Gicc::new(0));
    assert_eq!(gic.enable_interrupt(IntId::spi(0).unwrap(), true), Err(()));
    assert_eq!(gic.gicd.read_isenabler(1), 0);
    // A disable of the same line is unconditional.
    assert_eq!(gic.enable_interrupt(IntId::spi(0).unwrap(), false), Ok(()));
    // An implemented line still latches.
    assert_eq!(gic.enable_interrupt(IntId::sgi(3).unwrap(), true), Ok(()));
    assert_eq!(gic.gicd.read_isenabler(0), 1 << 3);
}

#[test]
fn enable_all_interrupts_covers_implemented_lines() {
    let mut gic = GicV2::new(Gicd::new(Typer(0b00001)), Gicc::new(0));
    gic.enable_all_interrupts(true);
    assert_eq!(gic.gicd.read_isenabler(0), 0xffffffff);
    assert_eq!(gic.gicd.read_isenabler(1), 0xffffffff);
    assert_eq!(gic.gicd.read_isenabler(2), 0);
    gic.enable_all_interrupts(false);
    for i in 0..32 {
        assert_eq!(gic.gicd.read_isenabler(i), 0);
    }
}

#[test]
fn priority_mask_is_written() {
    let mut gic = full_gic();
    gic.set_priority_mask(0x80);
    assert_eq!(gic.gicc.read_pmr(), 0x80);
}

#[test]
fn interrupt_priority_leaves_siblings_alone() {
    let mut gic = full_gic();
    // Ids 40..44 share priority register 10, one byte lane each.
    gic.set_interrupt_priority(IntId::from_raw(40), 0x11);
    gic.set_interrupt_priority(IntId::from_raw(41), 0x22);
    gic.set_interrupt_priority(IntId::from_raw(43), 0x44);
    assert_eq!(gic.gicd.read_ipriorityr(10), 0x44002211);
    // Overwriting one lane keeps the others.
    gic.set_interrupt_priority(IntId::from_raw(41), 0x33);
    assert_eq!(gic.gicd.read_ipriorityr(10), 0x44003311);
}

#[test]
fn v2_trigger_round_trip_leaves_other_bits() {
    let mut gic = full_gic();
    // Ids 32 and 33 share configuration register 2, two bits each.
    gic.set_trigger(IntId::from_raw(33), Trigger::Edge);
    let before = gic.gicd.read_icfgr(2);
    assert_eq!(before, 1 << 3);
    gic.set_trigger(IntId::from_raw(32), Trigger::Edge);
    assert_eq!(gic.gicd.read_icfgr(2), (1 << 3) | (1 << 1));
    gic.set_trigger(IntId::from_raw(32), Trigger::Level);
    assert_eq!(gic.gicd.read_icfgr(2), before);
}

#[test]
fn sgi_configuration_scenario() {
    // Enable SGI 3, give it priority 0x80 and edge trigger, then send it to
    // the requesting core only.
    let mut gic = full_gic();
    let sgi = IntId::sgi(3).unwrap();
    assert_eq!(gic.enable_interrupt(sgi, true), Ok(()));
    gic.set_interrupt_priority(sgi, 0x80);
    gic.set_trigger(sgi, Trigger::Edge);
    gic.send_sgi(
        sgi,
        SgiTarget::List {
            target_list_filter: SgiTargetListFilter::ForwardSelfOnly,
            target_list: 0b1,
        },
    );
    assert_eq!(gic.gicd.sgir(), 3 | (0b10 << 24) | (1 << 16) | (1 << 15));
}

#[test]
fn sgi_broadcast_value() {
    let mut gic = full_gic();
    gic.send_sgi(IntId::sgi(5).unwrap(), SgiTarget::All);
    assert_eq!(gic.gicd.sgir(), 5 | (0xff << 16));
}

#[test]
fn v2_acknowledge_and_end_interrupt() {
    let mut gic = GicV2::new(Gicd::new(Typer(0b11111)), Gicc::new(42));
    let intid = gic.get_and_acknowledge_interrupt().unwrap();
    assert_eq!(intid.raw(), 42);
    gic.end_interrupt(intid);
    assert_eq!(gic.gicc.aeoir(), 42);

    // The special "no pending interrupt" value reads back as no interrupt.
    let mut idle = GicV2::new(Gicd::new(Typer(0b11111)), Gicc::new(1023));
    assert_eq!(idle.get_and_acknowledge_interrupt(), None);
}

#[test]
fn typer_is_read_through_driver() {
    let gic = full_gic();
    assert_eq!(gic.typer(), Typer(0b11111));
}

#[test]
fn v2_control_register_flag_values() {
    assert_eq!(GicdCtlr::empty().bits, 0);
    assert_eq!(GicdCtlr::enable_grp1().bits, 0b10);
    assert!(GicdCtlr { bits: 0b11 }.contains(GicdCtlr {
        bits: GICD_CTLR_ENABLE_GRP0
    }));
    assert!(!GicdCtlr::empty().contains(GicdCtlr::enable_grp1()));
}
