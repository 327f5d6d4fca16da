//! Tests for the GICv3/4 driver and its register model.

use arm_gic::gicv3::registers::{
    Gicd, GicdCtlr, GicrIidr, GicrSgi, GicrTyper, Typer, Waker, GICD_CTLR_ARE_S, GICD_CTLR_E1NWF,
    GICD_CTLR_ENABLE_GRP1NS, MODEL_ID_ARM_GIC_600, WAKER_CHILDREN_ASLEEP, WAKER_PROCESSOR_SLEEP,
};
use arm_gic::gicv3::{GICRError, GicV3, Group, SecureIntGroup, SgiTarget, GICR_FRAME_SIZE};
use arm_gic::sysreg::SystemRegisters;
use arm_gic::{IntId, Trigger};

/// Returns a driver over zeroed blocks with the given number of cores.
fn gic_with_cores(cores: usize) -> GicV3 {
    let mut frames = Vec::new();
    for _ in 0..cores {
        frames.push(GicrSgi::new(GicrIidr(0), GicrTyper(0)));
    }
    GicV3::new(Gicd::new(Typer(0)), frames, false)
}

#[test]
fn max_espi() {
    assert_eq!(Typer(0xffffffff).max_espi().raw(), arm_gic::ESPI_END - 1);
}

#[test]
fn num_lpis() {
    // num_LPIs is 0, no IDbits means no LPIs.
    assert_eq!(Typer(0).num_lpis(), 0);
    // num_LPIs is 0, 13 IDbits means no LPIs.
    assert_eq!(Typer(12 << 19).num_lpis(), 0);
    // num_LPIs is 0, 14 IDbits means 2**13 LPIs.
    assert_eq!(Typer(13 << 19).num_lpis(), 1 << 13);
    // num_LPIs is 0, 15 IDbits means 2**13 LPIs.
    assert_eq!(Typer(13 << 19).num_lpis(), 1 << 13);

    // num_LPIs is specified.
    assert_eq!(Typer(1 << 11).num_lpis(), 4);
    assert_eq!(Typer(2 << 11).num_lpis(), 8);
    assert_eq!(Typer(16 << 11).num_lpis(), 1 << 17);
}

#[test]
fn gicr_typer_affinity() {
    let gicr_typer = GicrTyper(0x12_34_56_78_c0ffeeee);

    // Level 0 is 0x78, Level 1 is 0x56, etc.
    let expected_affinity_values = [0x78, 0x56, 0x34, 0x12];
    assert_eq!(gicr_typer.affinity_value(), expected_affinity_values);

    // Affinity Level 3 is shifted (8 bit gap).
    let expected_core_mpidr = 0x00_00_00_12_00_34_56_78;
    assert_eq!(gicr_typer.core_mpidr(), expected_core_mpidr);
}

#[test]
fn gicr_typer_flags() {
    // This flag is bit 0.
    assert!(!GicrTyper(0b0000000).physical_lpis_supported());
    assert!(GicrTyper(0b0000001).physical_lpis_supported());

    // This flag is bit 1.
    assert!(!GicrTyper(0b0000000).virtual_lpis_supported());
    assert!(GicrTyper(0b0000010).virtual_lpis_supported());

    // This flag is bit 3.
    assert!(!GicrTyper(0b0000000).direct_lpis_supported());
    assert!(GicrTyper(0b0001000).direct_lpis_supported());

    // This flag is bit 4.
    assert!(!GicrTyper(0b0000000).last_redistributor());
    assert!(GicrTyper(0b0010000).last_redistributor());

    // This flag is bit 5.
    assert!(!GicrTyper(0b0000000).disable_processor_group_supported());
    assert!(GicrTyper(0b0100000).disable_processor_group_supported());
}

#[test]
fn gicr_iidr_model_id() {
    assert_eq!(GicrIidr(0x0200043b).model_id(), MODEL_ID_ARM_GIC_600);
    // Variant and revision fields are masked out.
    assert_eq!(GicrIidr(0x020f243b).model_id(), MODEL_ID_ARM_GIC_600);
}

#[test]
fn redistributor_stride_probes_virtual_lpis() {
    // Not a GICv4: one 128 KiB window per core.
    assert_eq!(gic_with_cores(1).gicr_stride, GICR_FRAME_SIZE);
    // A GICv4 without virtual LPIs keeps the single window.
    let frames = vec![GicrSgi::new(GicrIidr(0), GicrTyper(0))];
    assert_eq!(
        GicV3::new(Gicd::new(Typer(0)), frames, true).gicr_stride,
        GICR_FRAME_SIZE
    );
    // A GICv4 whose first redistributor reports virtual LPIs doubles it.
    let frames = vec![GicrSgi::new(GicrIidr(0), GicrTyper(0b10))];
    assert_eq!(
        GicV3::new(Gicd::new(Typer(0)), frames, true).gicr_stride,
        2 * GICR_FRAME_SIZE
    );
}

#[test]
fn wake_handshake_transitions() {
    // A frame starts asleep; the first wake call succeeds and leaves it
    // awake, the second is refused without touching the hardware state.
    let mut gic = gic_with_cores(2);
    let before = gic.gicr_ptr(1).read_waker();
    assert_eq!(gic.redistributor_mark_core_awake(1), Ok(()));
    let awake = gic.gicr_ptr(1).read_waker();
    assert_ne!(before, awake);
    assert_eq!(
        gic.redistributor_mark_core_awake(1),
        Err(GICRError::AlreadyAwake)
    );
    assert_eq!(gic.gicr_ptr(1).read_waker(), awake);
    // The other core's frame is untouched and still asleep.
    assert_eq!(gic.gicr_ptr(0).read_waker(), before);

    // Going back to sleep is symmetric.
    assert_eq!(gic.redistributor_mark_core_asleep(1), Ok(()));
    assert_eq!(gic.gicr_ptr(1).read_waker(), before);
    assert_eq!(
        gic.redistributor_mark_core_asleep(1),
        Err(GICRError::AlreadyAsleep)
    );
}

#[test]
fn sleep_call_on_fresh_frame_is_refused() {
    let mut gic = gic_with_cores(1);
    assert_eq!(
        gic.redistributor_mark_core_asleep(0),
        Err(GICRError::AlreadyAsleep)
    );
}

#[test]
fn gicr_error_messages() {
    assert_eq!(
        GICRError::AlreadyAwake.message(),
        "redistributor has already been notified that the connected core is awake"
    );
    assert_eq!(
        GICRError::AlreadyAsleep.message(),
        "redistributor has already been notified that the connected core is asleep"
    );
}

#[test]
fn setup_configures_distributor_and_frames() {
    let mut gic = gic_with_cores(2);
    let mut regs = SystemRegisters::new();
    gic.setup(&mut regs, 0);
    // Affinity routing and non-secure group 1 are enabled.
    assert_eq!(
        gic.gicd.read_ctlr().bits,
        GICD_CTLR_ARE_S | GICD_CTLR_ENABLE_GRP1NS
    );
    // All SGIs and PPIs of every core, and all SPIs, are in group 1.
    for cpu in 0..2 {
        assert_eq!(gic.sgi_ptr(cpu).read_igroupr0(), 0xffffffff);
    }
    for i in 1..32 {
        assert_eq!(gic.gicd.read_igroupr(i), 0xffffffff);
    }
    // System register access, basic configuration and group 1 delivery.
    assert_eq!(regs.icc_sre_el1, 1);
    assert_eq!(regs.icc_ctlr_el1, 0);
    assert_eq!(regs.icc_igrpen1_el1, 1);
}

#[test]
fn enable_interrupt_dispatches_private_and_shared() {
    let mut gic = gic_with_cores(2);
    // A private interrupt goes to the named core's frame.
    gic.enable_interrupt(IntId::sgi(3).unwrap(), Some(1), true);
    assert_eq!(gic.sgi_ptr(1).read_isenabler0(), 1 << 3);
    assert_eq!(gic.sgi_ptr(0).read_isenabler0(), 0);
    gic.enable_interrupt(IntId::sgi(3).unwrap(), Some(1), false);
    assert_eq!(gic.sgi_ptr(1).read_isenabler0(), 0);
    // A shared interrupt goes to the distributor.
    let spi = IntId::spi(9).unwrap();
    gic.enable_interrupt(spi, None, true);
    assert_eq!(gic.gicd.read_isenabler(1), 1 << 9);
    gic.enable_interrupt(spi, None, false);
    assert_eq!(gic.gicd.read_isenabler(1), 0);
}

#[test]
fn enable_all_interrupts_covers_all_cores() {
    let mut gic = gic_with_cores(2);
    gic.enable_all_interrupts(true);
    for i in 1..32 {
        assert_eq!(gic.gicd.read_isenabler(i), 0xffffffff);
    }
    assert_eq!(gic.gicd.read_isenabler(0), 0);
    for cpu in 0..2 {
        assert_eq!(gic.sgi_ptr(cpu).read_isenabler0(), 0xffffffff);
    }
    gic.enable_all_interrupts(false);
    for i in 0..32 {
        assert_eq!(gic.gicd.read_isenabler(i), 0);
    }
    for cpu in 0..2 {
        assert_eq!(gic.sgi_ptr(cpu).read_isenabler0(), 0);
    }
}

#[test]
fn priority_mask_is_written_to_system_register() {
    let mut regs = SystemRegisters::new();
    GicV3::set_priority_mask(&mut regs, 0xff);
    assert_eq!(regs.icc_pmr_el1, 0xff);
}

#[test]
fn interrupt_priority_dispatches_private_and_shared() {
    let mut gic = gic_with_cores(2);
    gic.set_interrupt_priority(IntId::ppi(2).unwrap(), Some(0), 0x80);
    assert_eq!(gic.sgi_ptr(0).read_ipriorityr(18), 0x80);
    assert_eq!(gic.sgi_ptr(1).read_ipriorityr(18), 0);
    let spi = IntId::spi(9).unwrap();
    gic.set_interrupt_priority(spi, None, 0x40);
    assert_eq!(gic.gicd.read_ipriorityr(41), 0x40);
    // Sibling bytes stay untouched.
    assert_eq!(gic.gicd.read_ipriorityr(40), 0);
    assert_eq!(gic.gicd.read_ipriorityr(42), 0);
}

#[test]
fn trigger_round_trip_leaves_other_bits() {
    let mut gic = gic_with_cores(1);
    // Private interrupts use the frame's configuration registers.
    gic.set_trigger(IntId::ppi(1).unwrap(), Some(0), Trigger::Edge);
    assert_eq!(gic.sgi_ptr(0).read_icfgr(1), 1 << 3);
    gic.set_trigger(IntId::ppi(1).unwrap(), Some(0), Trigger::Level);
    assert_eq!(gic.sgi_ptr(0).read_icfgr(1), 0);
    // Shared interrupts use the distributor's, preserving neighbours.
    gic.set_trigger(IntId::from_raw(33), None, Trigger::Edge);
    let before = gic.gicd.read_icfgr(2);
    gic.set_trigger(IntId::from_raw(32), None, Trigger::Edge);
    gic.set_trigger(IntId::from_raw(32), None, Trigger::Level);
    assert_eq!(gic.gicd.read_icfgr(2), before);
}

#[test]
fn group_assignment_encodes_group_and_modifier() {
    let mut gic = gic_with_cores(1);
    let sgi = IntId::sgi(3).unwrap();
    gic.set_group(sgi, Some(0), Group::Group1NS);
    assert_eq!(gic.sgi_ptr(0).read_igroupr0(), 1 << 3);
    assert_eq!(gic.sgi_ptr(0).read_igrpmodr0(), 0);
    gic.set_group(sgi, Some(0), Group::Secure(SecureIntGroup::Group1S));
    assert_eq!(gic.sgi_ptr(0).read_igroupr0(), 0);
    assert_eq!(gic.sgi_ptr(0).read_igrpmodr0(), 1 << 3);
    gic.set_group(sgi, Some(0), Group::Secure(SecureIntGroup::Group0));
    assert_eq!(gic.sgi_ptr(0).read_igroupr0(), 0);
    assert_eq!(gic.sgi_ptr(0).read_igrpmodr0(), 0);

    let spi = IntId::spi(0).unwrap();
    gic.set_group(spi, None, Group::Group1NS);
    assert_eq!(gic.gicd.read_igroupr(1), 1);
    assert_eq!(gic.gicd.read_igrpmodr(1), 0);
}

#[test]
fn sgi_values_pack_affinities() {
    let mut regs = SystemRegisters::new();
    GicV3::send_sgi(
        &mut regs,
        IntId::sgi(3).unwrap(),
        SgiTarget::List {
            affinity3: 0,
            affinity2: 0,
            affinity1: 0,
            target_list: 0b1,
        },
    );
    assert_eq!(regs.icc_sgi1r_el1, (3 << 24) | 1);

    GicV3::send_sgi(
        &mut regs,
        IntId::sgi(5).unwrap(),
        SgiTarget::List {
            affinity3: 0x11,
            affinity2: 0x22,
            affinity1: 0x33,
            target_list: 0x8001,
        },
    );
    assert_eq!(
        regs.icc_sgi1r_el1,
        0x8001 | (0x33 << 16) | (5 << 24) | (0x22 << 32) | (0x11 << 48)
    );

    GicV3::send_sgi(&mut regs, IntId::sgi(4).unwrap(), SgiTarget::All);
    assert_eq!(regs.icc_sgi1r_el1, (4 << 24) | (1 << 40));
}

#[test]
fn acknowledge_and_end_interrupt() {
    let mut regs = SystemRegisters::new();
    regs.icc_iar1_el1 = 42;
    let intid = GicV3::get_and_acknowledge_interrupt(&regs).unwrap();
    assert_eq!(intid.raw(), 42);
    GicV3::end_interrupt(&mut regs, intid);
    assert_eq!(regs.icc_eoir1_el1, 42);

    regs.icc_iar1_el1 = 1023;
    assert_eq!(GicV3::get_and_acknowledge_interrupt(&regs), None);
}

#[test]
fn group_enables_write_system_registers() {
    let mut regs = SystemRegisters::new();
    GicV3::enable_group0(&mut regs, true);
    GicV3::enable_group1(&mut regs, true);
    assert_eq!(regs.icc_igrpen0_el1, 1);
    assert_eq!(regs.icc_igrpen1_el1, 1);
    GicV3::enable_group0(&mut regs, false);
    assert_eq!(regs.icc_igrpen0_el1, 0);
}

#[test]
fn control_flags_are_set_and_cleared() {
    let mut gic = gic_with_cores(1);
    gic.gicd_set_control(GicdCtlr {
        bits: GICD_CTLR_E1NWF | GICD_CTLR_ARE_S,
    });
    assert_eq!(gic.gicd.read_ctlr().bits, GICD_CTLR_E1NWF | GICD_CTLR_ARE_S);
    gic.gicd_set_control(GicdCtlr {
        bits: GICD_CTLR_ENABLE_GRP1NS,
    });
    assert_eq!(
        gic.gicd.read_ctlr().bits,
        GICD_CTLR_E1NWF | GICD_CTLR_ARE_S | GICD_CTLR_ENABLE_GRP1NS
    );
    gic.gicd_clear_control(GicdCtlr {
        bits: GICD_CTLR_ARE_S,
    });
    assert_eq!(
        gic.gicd.read_ctlr().bits,
        GICD_CTLR_E1NWF | GICD_CTLR_ENABLE_GRP1NS
    );
    // The barriers return: the model settles writes instantly.
    gic.gicd_barrier();
    gic.gicr_barrier(0);
}

#[test]
fn init_cpu_wakes_only_named_core() {
    let mut gic = gic_with_cores(2);
    let mut regs = SystemRegisters::new();
    let asleep = gic.gicr_ptr(0).read_waker();
    gic.init_cpu(&mut regs, 1);
    assert_eq!(regs.icc_sre_el1, 1);
    assert_eq!(regs.icc_ctlr_el1, 0);
    assert_ne!(gic.gicr_ptr(1).read_waker(), asleep);
    assert_eq!(gic.gicr_ptr(0).read_waker(), asleep);
    // Waking again through init_cpu is not an error.
    gic.init_cpu(&mut regs, 1);
}

#[test]
fn typer_and_cpu_count_report_configuration() {
    let gic = gic_with_cores(3);
    assert_eq!(gic.cpu_count(), 3);
    assert_eq!(gic.typer(), Typer(0));
    assert_eq!(Typer(2 << 5).num_cpus(), 2);
    assert_eq!(Typer(0b11111).num_spis(), 988);
    assert_eq!(Typer(0b00010).num_spis(), 64);
    assert_eq!(Typer(13 << 19).id_bits(), 14);
}

#[test]
fn control_register_flag_values() {
    let a = GicdCtlr::from_bits(GICD_CTLR_ARE_S);
    let b = a.union(GicdCtlr::from_bits(GICD_CTLR_ENABLE_GRP1NS));
    assert_eq!(b.bits, 0x12);
    assert!(b.contains(a));
    assert!(!a.contains(b));
    assert_eq!(b.difference(a), GicdCtlr::from_bits(GICD_CTLR_ENABLE_GRP1NS));
    assert_eq!(GicdCtlr::empty().bits, 0);

    let asleep = Waker {
        bits: WAKER_CHILDREN_ASLEEP | WAKER_PROCESSOR_SLEEP,
    };
    assert!(asleep.contains(Waker {
        bits: WAKER_CHILDREN_ASLEEP
    }));
    assert!(!Waker { bits: 0 }.contains(Waker {
        bits: WAKER_PROCESSOR_SLEEP
    }));
}
