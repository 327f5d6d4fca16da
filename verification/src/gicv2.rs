//! Driver for the Arm Generic Interrupt Controller version 2.

use vstd::prelude::*;

pub mod registers;

verus! {

use crate::IntId;
use crate::Trigger;
use crate::bitops::{
    bit_clear,
    bit_get,
    bit_set,
    byte_lane,
    set_byte_lane,
    spec_bit_clear,
    spec_bit_set,
    spec_set_byte_lane,
};
use crate::gicv2::registers::{
    GICD_CTLR_ENABLE_GRP1,
    Gicc,
    GiccState,
    Gicd,
    GicdCtlr,
    GicdState,
    Typer,
    enable_mask,
    line_implemented,
};

/// The raw value that the software generated interrupt register is given for
/// the target `target`, carrying interrupt `intid`.
pub open spec fn sgi_value(intid: IntId, target: SgiTarget) -> u32 {
    match target {
        SgiTarget::All => (intid.raw() & 0x0f) | (0xffu32 << 16),
        SgiTarget::List { target_list_filter, target_list } => (intid.raw() & 0xf) | (
        sgi_filter_value(target_list_filter) << 24) | (((target_list & 0xff) as u32) << 16) | (1u32
            << 15),
    }
}

/// The two-bit forwarding filter field of the software generated interrupt
/// register.
pub open spec fn sgi_filter_value(filter: SgiTargetListFilter) -> u32 {
    match filter {
        SgiTargetListFilter::CPUTargetList => 0b00u32,
        SgiTargetListFilter::ForwardOthersOnly => 0b01u32,
        SgiTargetListFilter::ForwardSelfOnly => 0b10u32,
    }
}

/// Driver for an Arm Generic Interrupt Controller version 2. It owns the
/// model of its two register blocks for its whole lifetime, so no second
/// driver can observe the same state.
#[derive(Debug, Eq, PartialEq)]
pub struct GicV2 {
    /// The distributor register block.
    pub gicd: Gicd,
    /// The CPU interface register block.
    pub gicc: Gicc,
}

impl GicV2 {
    /// Whether the register blocks of the driver are well formed.
    pub open spec fn wf(self) -> bool {
        self.gicd.wf()
    }

    /// Constructs a new instance of the driver over the given distributor and
    /// CPU interface blocks, taking them over for its whole lifetime.
    pub fn new(gicd: Gicd, gicc: Gicc) -> (r: Self)
        ensures
            r == (GicV2 { gicd, gicc }),
    {
        GicV2 { gicd, gicc }
    }

    /// Returns information about what the GIC implementation supports.
    pub fn typer(&self) -> (r: Typer)
        ensures
            r.0 == self.gicd@.typer,
    {
        self.gicd.read_typer()
    }

    /// Initialises the GIC: enables group 1 at the distributor, places every
    /// interrupt into group 1, enables the CPU interface and opens its
    /// priority mask to admit all priorities.
    ///
    /// The effect is global; two cores must not run it for the same
    /// controller at once without external serialization.
    pub fn setup(&mut self)
        requires
            old(self).wf(),
        ensures
            final(self).wf(),
            final(self).gicd@.ctlr == GICD_CTLR_ENABLE_GRP1,
            final(self).gicd@.igroupr.len() == 32,
            forall|i: int| 0 <= i < 32 ==> final(self).gicd@.igroupr[i] == 0xffff_ffffu32,
            final(self).gicd@.typer == old(self).gicd@.typer,
            final(self).gicd@.enable == old(self).gicd@.enable,
            final(self).gicd@.ipriorityr == old(self).gicd@.ipriorityr,
            final(self).gicd@.icfgr == old(self).gicd@.icfgr,
            final(self).gicd@.sgir == old(self).gicd@.sgir,
            final(self).gicc@ == (GiccState { ctlr: 0b1, pmr: 0xff, ..old(self).gicc@ }),
    {
        self.gicd.write_ctlr(GicdCtlr::enable_grp1());
        let mut i: usize = 0;
        while i < 32
            invariant
                i <= 32,
                self.wf(),
                self.gicd@.ctlr == GICD_CTLR_ENABLE_GRP1,
                self.gicd@.igroupr.len() == 32,
                forall|j: int| 0 <= j < i ==> self.gicd@.igroupr[j] == 0xffff_ffffu32,
                self.gicd@.typer == old(self).gicd@.typer,
                self.gicd@.enable == old(self).gicd@.enable,
                self.gicd@.ipriorityr == old(self).gicd@.ipriorityr,
                self.gicd@.icfgr == old(self).gicd@.icfgr,
                self.gicd@.sgir == old(self).gicd@.sgir,
                self.gicc == old(self).gicc,
            decreases 32 - i,
        {
            self.gicd.write_igroupr(i, 0xffff_ffff);
            i = i + 1;
        }
        self.gicc.write_ctlr(0b1);
        self.gicc.write_pmr(0xff);
    }

    /// Enables or disables the interrupt with the given ID.
    ///
    /// An enable is read back: if the line did not latch, because the
    /// hardware instantiation does not implement it, the call reports the
    /// failure instead of succeeding silently. A disable is unconditional.
    pub fn enable_interrupt(&mut self, intid: IntId, enable: bool) -> (r: Result<(), ()>)
        requires
            old(self).wf(),
            intid.raw() < 1024,
        ensures
            final(self).wf(),
            final(self).gicc == old(self).gicc,
            enable ==> final(self).gicd@ == (GicdState {
                enable: old(self).gicd@.enable.update(
                    (intid.raw() / 32) as int,
                    old(self).gicd@.enable[(intid.raw() / 32) as int] | ((1u32 << (intid.raw()
                        % 32)) & enable_mask(old(self).gicd@.typer, (intid.raw() / 32) as int)),
                ),
                ..old(self).gicd@
            }),
            !enable ==> final(self).gicd@ == (GicdState {
                enable: old(self).gicd@.enable.update(
                    (intid.raw() / 32) as int,
                    spec_bit_clear(
                        old(self).gicd@.enable[(intid.raw() / 32) as int],
                        intid.raw() % 32,
                    ),
                ),
                ..old(self).gicd@
            }),
            enable ==> (r is Ok <==> line_implemented(old(self).gicd@.typer, intid.raw())),
            !enable ==> r is Ok,
            enable && r is Ok ==> bit_get(
                final(self).gicd@.enable[(intid.raw() / 32) as int],
                intid.raw() % 32,
            ),
            !enable ==> !bit_get(
                final(self).gicd@.enable[(intid.raw() / 32) as int],
                intid.raw() % 32,
            ),
    {
        let index = (intid.raw() / 32) as usize;
        let bit = 1u32 << (intid.raw() % 32);

        proof {
            let t = old(self).gicd@.typer;
            let e = old(self).gicd@.enable[(intid.raw() / 32) as int];
            let p = intid.raw() % 32;
            let f = t & 0b11111;
            // The register index stays within the block, and it is an
            // implemented register exactly when the line is implemented.
            assert(intid.raw() / 32 < 32);
            assert(intid.raw() / 32 <= f <==> intid.raw() < (f + 1) * 32) by (nonlinear_arith)
                requires
                    f >= 0,
            ;
            // On an implemented register the single written bit latches; on a
            // reserved register, which holds no latched line, nothing does.
            assert((e | ((1u32 << p) & 0xffff_ffffu32)) & (1u32 << p) != 0) by (bit_vector)
                requires
                    p < 32,
            ;
            if enable_mask(t, (intid.raw() / 32) as int) == 0u32 {
                assert(e & !0u32 == 0);
                assert((e | ((1u32 << p) & 0u32)) & (1u32 << p) == 0) by (bit_vector)
                    requires
                        e & !0u32 == 0,
                ;
            }
            // A disable leaves the written bit clear.
            assert((e & !(1u32 << p)) & (1u32 << p) == 0) by (bit_vector);
        }

        if enable {
            self.gicd.write_isenabler(index, bit);
            if (self.gicd.read_isenabler(index) & bit) == 0 {
                return Err(());
            }
        } else {
            self.gicd.write_icenabler(index, bit);
        }
        Ok(())
    }

    /// Enables or disables every interrupt the distributor implements.
    pub fn enable_all_interrupts(&mut self, enable: bool)
        requires
            old(self).wf(),
        ensures
            final(self).wf(),
            final(self).gicc == old(self).gicc,
            final(self).gicd@.ctlr == old(self).gicd@.ctlr,
            final(self).gicd@.typer == old(self).gicd@.typer,
            final(self).gicd@.igroupr == old(self).gicd@.igroupr,
            final(self).gicd@.ipriorityr == old(self).gicd@.ipriorityr,
            final(self).gicd@.icfgr == old(self).gicd@.icfgr,
            final(self).gicd@.sgir == old(self).gicd@.sgir,
            final(self).gicd@.enable.len() == 32,
            enable ==> forall|i: int|
                0 <= i < 32 ==> final(self).gicd@.enable[i] == enable_mask(
                    old(self).gicd@.typer,
                    i,
                ),
            !enable ==> forall|i: int| 0 <= i < 32 ==> final(self).gicd@.enable[i] == 0,
    {
        let mut i: usize = 0;
        while i < 32
            invariant
                i <= 32,
                self.wf(),
                self.gicc == old(self).gicc,
                self.gicd@.ctlr == old(self).gicd@.ctlr,
                self.gicd@.typer == old(self).gicd@.typer,
                self.gicd@.igroupr == old(self).gicd@.igroupr,
                self.gicd@.ipriorityr == old(self).gicd@.ipriorityr,
                self.gicd@.icfgr == old(self).gicd@.icfgr,
                self.gicd@.sgir == old(self).gicd@.sgir,
                self.gicd@.enable.len() == 32,
                forall|j: int| i <= j < 32 ==> self.gicd@.enable[j] == old(self).gicd@.enable[j],
                enable ==> forall|j: int|
                    0 <= j < i ==> self.gicd@.enable[j] == enable_mask(old(self).gicd@.typer, j),
                !enable ==> forall|j: int| 0 <= j < i ==> self.gicd@.enable[j] == 0,
            decreases 32 - i,
        {
            proof {
                let e = self.gicd@.enable[i as int];
                let m = enable_mask(self.gicd@.typer, i as int);
                assert(e & !m == 0 ==> (e | (0xffff_ffffu32 & m)) == m) by (bit_vector);
                assert(e & !0xffff_ffffu32 == 0) by (bit_vector);
            }
            if enable {
                self.gicd.write_isenabler(i, 0xffff_ffff);
            } else {
                self.gicd.write_icenabler(i, 0xffff_ffff);
            }
            i = i + 1;
        }
    }

    /// Sets the priority mask for the current CPU core.
    ///
    /// Only interrupts with a higher priority (numerically lower) will be signalled.
    pub fn set_priority_mask(&mut self, min_priority: u8)
        ensures
            final(self).gicd == old(self).gicd,
            final(self).gicc@ == (GiccState { pmr: min_priority as u32, ..old(self).gicc@ }),
            final(self).wf() == old(self).wf(),
    {
        self.gicc.write_pmr(min_priority as u32);
    }

    /// Sets the priority of the interrupt with the given ID, leaving the
    /// three sibling interrupts packed into the same register untouched.
    ///
    /// Note that lower numbers correspond to higher priorities; i.e. 0 is the highest priority, and
    /// 255 is the lowest.
    pub fn set_interrupt_priority(&mut self, intid: IntId, priority: u8)
        requires
            old(self).wf(),
            intid.raw() < 1024,
        ensures
            final(self).wf(),
            final(self).gicc == old(self).gicc,
            final(self).gicd@ == (GicdState {
                ipriorityr: old(self).gicd@.ipriorityr.update(
                    (intid.raw() / 4) as int,
                    spec_set_byte_lane(
                        old(self).gicd@.ipriorityr[(intid.raw() / 4) as int],
                        (intid.raw() % 4) as u32,
                        priority,
                    ),
                ),
                ..old(self).gicd@
            }),
            byte_lane(
                final(self).gicd@.ipriorityr[(intid.raw() / 4) as int],
                (intid.raw() % 4) as u32,
            ) == priority,
            forall|q: u32|
                q < 4 && q != (intid.raw() % 4) as u32 ==> #[trigger] byte_lane(
                    final(self).gicd@.ipriorityr[(intid.raw() / 4) as int],
                    q,
                ) == byte_lane(old(self).gicd@.ipriorityr[(intid.raw() / 4) as int], q),
    {
        let idx = (intid.raw() / 4) as usize;
        let lane = intid.raw() % 4;
        let word = self.gicd.read_ipriorityr(idx);
        let updated = set_byte_lane(word, lane, priority);
        proof {
            crate::bitops::lemma_byte_lane_isolated(word, lane, priority);
        }
        self.gicd.write_ipriorityr(idx, updated);
    }

    /// Configures the trigger type for the interrupt with the given ID,
    /// writing only the odd bit of its two-bit configuration field and
    /// leaving every other interrupt's bits in the register untouched.
    pub fn set_trigger(&mut self, intid: IntId, trigger: Trigger)
        requires
            old(self).wf(),
            intid.raw() < 1024,
        ensures
            final(self).wf(),
            final(self).gicc == old(self).gicc,
            final(self).gicd@ == (GicdState {
                icfgr: old(self).gicd@.icfgr.update(
                    (intid.raw() / 16) as int,
                    if trigger is Edge {
                        spec_bit_set(
                            old(self).gicd@.icfgr[(intid.raw() / 16) as int],
                            ((intid.raw() % 16) * 2 + 1) as u32,
                        )
                    } else {
                        spec_bit_clear(
                            old(self).gicd@.icfgr[(intid.raw() / 16) as int],
                            ((intid.raw() % 16) * 2 + 1) as u32,
                        )
                    },
                ),
                ..old(self).gicd@
            }),
            bit_get(
                final(self).gicd@.icfgr[(intid.raw() / 16) as int],
                ((intid.raw() % 16) * 2 + 1) as u32,
            ) == (trigger is Edge),
            forall|q: u32|
                q < 32 && q != ((intid.raw() % 16) * 2 + 1) as u32 ==> #[trigger] bit_get(
                    final(self).gicd@.icfgr[(intid.raw() / 16) as int],
                    q,
                ) == bit_get(old(self).gicd@.icfgr[(intid.raw() / 16) as int], q),
    {
        let index = (intid.raw() / 16) as usize;
        let pos = (intid.raw() % 16) * 2 + 1;
        let v = self.gicd.read_icfgr(index);
        let updated = match trigger {
            Trigger::Edge => bit_set(v, pos),
            Trigger::Level => bit_clear(v, pos),
        };
        proof {
            crate::bitops::lemma_bit_isolated(v, pos as u32);
        }
        self.gicd.write_icfgr(index, updated);
    }

    /// Sends a software-generated interrupt (SGI) to the given cores.
    pub fn send_sgi(&mut self, intid: IntId, target: SgiTarget)
        requires
            old(self).wf(),
            intid.is_sgi(),
        ensures
            final(self).wf(),
            final(self).gicc == old(self).gicc,
            final(self).gicd@ == (GicdState { sgir: sgi_value(intid, target), ..old(self).gicd@ }),
    {
        let value = match target {
            SgiTarget::All => (intid.raw() & 0x0f) | (0xff << 16),
            SgiTarget::List { target_list_filter, target_list } => {
                let filter: u32 = match target_list_filter {
                    SgiTargetListFilter::CPUTargetList => 0b00,
                    SgiTargetListFilter::ForwardOthersOnly => 0b01,
                    SgiTargetListFilter::ForwardSelfOnly => 0b10,
                };
                (intid.raw() & 0xf) | (filter << 24) | (((target_list & 0xff) as u32) << 16) | (
                1u32 << 15)
            },
        };
        self.gicd.write_sgir(value);
    }

    /// Gets the ID of the highest priority signalled interrupt, and acknowledges it.
    ///
    /// Returns `None` if there is no pending interrupt of sufficient priority,
    /// i.e. the acknowledge register read the "no pending interrupt" value.
    pub fn get_and_acknowledge_interrupt(&mut self) -> (r: Option<IntId>)
        ensures
            *final(self) == *old(self),
            r is Some <==> old(self).gicc@.aiar != crate::SPECIAL_END - 1,
            r matches Some(id) ==> id.raw() == old(self).gicc@.aiar,
    {
        let value = self.gicc.read_aiar();
        if value == 1023 {
            None
        } else {
            Some(IntId::from_raw(value))
        }
    }

    /// Informs the interrupt controller that the CPU has completed processing the given interrupt.
    /// This drops the interrupt priority and deactivates the interrupt.
    ///
    /// The ID must come from a matching acknowledge call; ending an
    /// unacknowledged interrupt is a contract violation against the hardware.
    pub fn end_interrupt(&mut self, intid: IntId)
        ensures
            final(self).gicd == old(self).gicd,
            final(self).gicc@ == (GiccState { aeoir: intid.raw(), ..old(self).gicc@ }),
            final(self).wf() == old(self).wf(),
    {
        self.gicc.write_aeoir(intid.raw());
    }
}

/// The target specification for a software-generated interrupt.
#[derive(Copy, Clone, Debug, Eq, PartialEq, Structural)]
pub enum SgiTarget {
    /// The SGI is routed to all CPU cores except the current one.
    All,
    /// The SGI is routed to the CPU cores matching the given list and filter.
    List {
        /// How the target list is to be interpreted.
        target_list_filter: SgiTargetListFilter,
        /// A bitmask of the cores the SGI is forwarded to.
        target_list: u16,
    },
}

/// The forwarding filter for a software-generated interrupt sent to a list.
#[derive(Copy, Clone, Debug, Eq, PartialEq, Structural)]
pub enum SgiTargetListFilter {
    /// Forward to the cores named in the target list.
    CPUTargetList,
    /// Forward to all cores but the requesting one; the list is ignored.
    ForwardOthersOnly,
    /// Forward only to the requesting core; the list is ignored.
    ForwardSelfOnly,
}

} // verus!
