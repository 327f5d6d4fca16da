//! The CPU-interface system registers that the GICv3/4 driver writes.
//!
//! On hardware these are whole-core system registers reached by dedicated
//! instructions; the access is atomic and independent of memory. The driver
//! takes the set of them as an explicit, exclusively borrowed value, so that
//! every write is visible in the contract and a test can hand in its own set.

use vstd::prelude::*;

verus! {

/// The CPU-interface system registers used by the GICv3/4 driver, by their
/// architectural names.
#[derive(Debug, Eq, PartialEq, Structural)]
pub struct SystemRegisters {
    /// Interrupt acknowledge register for group 1 (read by the driver).
    pub icc_iar1_el1: u32,
    /// CPU interface control register.
    pub icc_ctlr_el1: u32,
    /// End-of-interrupt register for group 1.
    pub icc_eoir1_el1: u32,
    /// Group 0 interrupt enable register.
    pub icc_igrpen0_el1: u32,
    /// Group 1 interrupt enable register.
    pub icc_igrpen1_el1: u32,
    /// Priority mask register.
    pub icc_pmr_el1: u32,
    /// SGI generation register for group 1.
    pub icc_sgi1r_el1: u64,
    /// System register enable register.
    pub icc_sre_el1: u32,
}

impl SystemRegisters {
    /// Returns a set of system registers holding zero everywhere, the state a
    /// test double starts from.
    pub fn new() -> (r: Self)
        ensures
            r.icc_iar1_el1 == 0,
            r.icc_ctlr_el1 == 0,
            r.icc_eoir1_el1 == 0,
            r.icc_igrpen0_el1 == 0,
            r.icc_igrpen1_el1 == 0,
            r.icc_pmr_el1 == 0,
            r.icc_sgi1r_el1 == 0,
            r.icc_sre_el1 == 0,
    {
        SystemRegisters {
            icc_iar1_el1: 0,
            icc_ctlr_el1: 0,
            icc_eoir1_el1: 0,
            icc_igrpen0_el1: 0,
            icc_igrpen1_el1: 0,
            icc_pmr_el1: 0,
            icc_sgi1r_el1: 0,
            icc_sre_el1: 0,
        }
    }
}

} // verus!
