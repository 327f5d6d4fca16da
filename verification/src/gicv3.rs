//! Driver for the Arm Generic Interrupt Controller version 3 (or 4).

use vstd::prelude::*;

pub mod registers;

verus! {

use crate::IntId;
use crate::Trigger;
use crate::bitops::{bit_clear, bit_get, bit_set, spec_bit_clear, spec_bit_set};
use crate::sysreg::SystemRegisters;
use crate::gicv3::registers::{
    GICD_CTLR_ARE_S,
    GICD_CTLR_ENABLE_GRP1NS,
    GICD_CTLR_RWP,
    GICR_CTLR_RWP,
    Gicd,
    GicdCtlr,
    GicdState,
    GicrSgi,
    GicrState,
    SgiState,
    Typer,
    WAKER_CHILDREN_ASLEEP,
    WAKER_PROCESSOR_SLEEP,
    Waker,
    children_asleep,
    processor_sleep,
    waker_settled,
};

/// An error which may be returned from operations on a GIC Redistributor.
#[derive(Debug, Clone, Copy, Eq, PartialEq, Structural)]
pub enum GICRError {
    /// The redistributor has already been told that the connected core is awake.
    AlreadyAwake,
    /// The redistributor has already been told that the connected core is asleep.
    AlreadyAsleep,
}

impl GICRError {
    /// Returns a description of the error.
    pub fn message(&self) -> (r: &'static str)
        ensures
            self is AlreadyAwake ==> r@
                == "redistributor has already been notified that the connected core is awake"@,
            self is AlreadyAsleep ==> r@
                == "redistributor has already been notified that the connected core is asleep"@,
    {
        match self {
            GICRError::AlreadyAwake => {
                "redistributor has already been notified that the connected core is awake"
            },
            GICRError::AlreadyAsleep => {
                "redistributor has already been notified that the connected core is asleep"
            },
        }
    }
}

/// The size in bytes of one redistributor window: the redistributor block
/// and its SGI and PPI frame, 64 KiB each.
pub const GICR_FRAME_SIZE: usize = 0x20000;

/// The byte distance between the redistributor windows of consecutive cores:
/// one window, doubled when the controller is a GICv4 whose first
/// redistributor reports virtual LPI support, since that adds a virtual LPI
/// frame and a reserved frame to every window.
pub open spec fn spec_redistributor_stride(first_typer: u64, gic_v4: bool) -> int {
    if gic_v4 && first_typer & 2 != 0 {
        2 * GICR_FRAME_SIZE
    } else {
        GICR_FRAME_SIZE as int
    }
}

/// Returns the byte distance between redistributor windows, probed from the
/// type register of the first redistributor.
pub fn redistributor_stride(first_typer: registers::GicrTyper, gic_v4: bool) -> (r: usize)
    ensures
        r == spec_redistributor_stride(first_typer.0, gic_v4),
{
    if gic_v4 && first_typer.virtual_lpis_supported() {
        2 * GICR_FRAME_SIZE
    } else {
        GICR_FRAME_SIZE
    }
}

/// Whether a successful wake request can be posted against a settled wake
/// register value: the children must currently be asleep.
pub open spec fn wake_succeeds(w: u32) -> bool {
    children_asleep(w)
}

/// The settled wake register value after a wake request: if the children
/// were asleep, the processor-sleep request is withdrawn and the hardware
/// follows; otherwise the request is refused and nothing is written.
pub open spec fn wake_result(w: u32) -> u32 {
    if children_asleep(w) {
        waker_settled(w & !WAKER_PROCESSOR_SLEEP)
    } else {
        w
    }
}

/// Whether a successful sleep request can be posted against a settled wake
/// register value: the children must currently be awake.
pub open spec fn sleep_succeeds(w: u32) -> bool {
    !children_asleep(w)
}

/// The settled wake register value after a sleep request: if the children
/// were awake, the processor-sleep request is posted and the hardware
/// follows; otherwise the request is refused and nothing is written.
pub open spec fn sleep_result(w: u32) -> u32 {
    if !children_asleep(w) {
        waker_settled(w | WAKER_PROCESSOR_SLEEP)
    } else {
        w
    }
}

/// The wake handshake drives a frame that starts asleep to the awake state,
/// and a second wake request then finds it awake, is refused, and leaves the
/// register untouched; symmetrically for the sleep handshake.
pub proof fn lemma_wake_sleep_handshake(w: u32)
    requires
        children_asleep(w) == processor_sleep(w),
    ensures
        wake_succeeds(w) ==> !children_asleep(wake_result(w)),
        wake_succeeds(w) ==> !wake_succeeds(wake_result(w)),
        wake_succeeds(w) ==> wake_result(wake_result(w)) == wake_result(w),
        sleep_succeeds(w) ==> children_asleep(sleep_result(w)),
        sleep_succeeds(w) ==> !sleep_succeeds(sleep_result(w)),
        sleep_succeeds(w) ==> sleep_result(sleep_result(w)) == sleep_result(w),
{
    assert((w & !0x2u32) & 0x2u32 == 0 && ((w & !0x2u32) & !0x4u32) & 0x4u32 == 0) by (bit_vector);
    assert((w | 0x2u32) & 0x2u32 != 0 && ((w | 0x2u32) | 0x4u32) & 0x4u32 != 0) by (bit_vector);
}

/// Driver for an Arm Generic Interrupt Controller version 3 (or 4). It owns
/// the model of the shared distributor block and of every core's
/// redistributor window for its whole lifetime, so no second driver can
/// observe the same state; the per-core CPU interface system registers are
/// handed in explicitly by the caller.
#[derive(Debug, Eq, PartialEq)]
pub struct GicV3 {
    /// The distributor register block.
    pub gicd: Gicd,
    /// One redistributor window for each CPU core, in redistributor order.
    pub frames: Vec<GicrSgi>,
    /// The byte distance between the start of consecutive redistributor
    /// windows in the controller's address space.
    pub gicr_stride: usize,
}

impl GicV3 {
    /// Whether the distributor block and every redistributor window are well
    /// formed.
    pub open spec fn wf(self) -> bool {
        &&& self.gicd.wf()
        &&& forall|i: int| 0 <= i < self.frames@.len() ==> (#[trigger] self.frames@[i]).wf()
    }

    /// Constructs a new instance of the driver over the given distributor
    /// block and redistributor windows, one window per core, taking them
    /// over for its whole lifetime. The window stride is probed once from
    /// the first redistributor's type register.
    pub fn new(gicd: Gicd, frames: Vec<GicrSgi>, gic_v4: bool) -> (r: Self)
        requires
            frames@.len() >= 1,
        ensures
            r.gicd == gicd,
            r.frames == frames,
            r.gicr_stride == spec_redistributor_stride(frames@[0].gicr@.typer, gic_v4),
    {
        let first = &frames[0];
        let stride = redistributor_stride(first.gicr.read_typer(), gic_v4);
        GicV3 { gicd, frames, gicr_stride: stride }
    }

    /// Returns the number of CPU cores, and hence redistributor windows,
    /// this driver serves.
    pub fn cpu_count(&self) -> (r: usize)
        ensures
            r == self.frames@.len(),
    {
        self.frames.len()
    }

    /// Returns information about what the GIC implementation supports.
    pub fn typer(&self) -> (r: Typer)
        ensures
            r.0 == self.gicd@.typer,
    {
        self.gicd.read_typer()
    }

    /// Returns a reference to the GIC distributor block.
    ///
    /// This may be used to read the registers directly for functionality not
    /// yet supported by this driver; the blocks themselves are public for
    /// raw writes, which step outside every guarantee the driver gives.
    pub fn gicd_ptr(&self) -> (r: &Gicd)
        ensures
            *r == self.gicd,
    {
        &self.gicd
    }

    /// Returns a reference to the redistributor block of core `cpu`.
    pub fn gicr_ptr(&self, cpu: usize) -> (r: &registers::Gicr)
        requires
            cpu < self.frames@.len(),
        ensures
            *r == self.frames@[cpu as int].gicr,
    {
        &self.frames[cpu].gicr
    }

    /// Returns a reference to the SGI and PPI frame of core `cpu`.
    pub fn sgi_ptr(&self, cpu: usize) -> (r: &registers::Sgi)
        requires
            cpu < self.frames@.len(),
        ensures
            *r == self.frames@[cpu as int].sgi,
    {
        &self.frames[cpu].sgi
    }

    /// Blocks until no distributor register write is pending for the current
    /// security state. The model completes writes instantly, so the wait
    /// ends at the first read; on hardware it is unbounded by design, and a
    /// controller that never settles hangs the caller.
    pub fn gicd_barrier(&self)
        requires
            self.wf(),
    {
        while self.gicd.read_ctlr().bits & GICD_CTLR_RWP != 0
            invariant
                self.wf(),
            decreases 0int,
        {
        }
    }

    /// Blocks until no register write is pending at the redistributor of
    /// core `cpu`. The model completes writes instantly, so the wait ends at
    /// the first read; on hardware it is unbounded by design.
    pub fn gicr_barrier(&self, cpu: usize)
        requires
            self.wf(),
            cpu < self.frames@.len(),
    {
        while self.gicr_ptr(cpu).read_ctlr().bits & GICR_CTLR_RWP != 0
            invariant
                self.wf(),
                cpu < self.frames@.len(),
            decreases 0int,
        {
        }
    }

    /// Informs the GIC redistributor of core `cpu` that the core has
    /// awakened, then blocks until the children-asleep acknowledgment
    /// clears; the model's hardware side answers instantly. Fails with
    /// `AlreadyAwake`, writing nothing, if the acknowledgment is already
    /// clear.
    pub fn redistributor_mark_core_awake(&mut self, cpu: usize) -> (r: Result<(), GICRError>)
        requires
            old(self).wf(),
            cpu < old(self).frames@.len(),
        ensures
            final(self).wf(),
            final(self).gicd == old(self).gicd,
            final(self).gicr_stride == old(self).gicr_stride,
            final(self).frames@.len() == old(self).frames@.len(),
            forall|j: int|
                0 <= j < old(self).frames@.len() && j != cpu ==> final(self).frames@[j] == old(
                    self,
                ).frames@[j],
            final(self).frames@[cpu as int].sgi == old(self).frames@[cpu as int].sgi,
            final(self).frames@[cpu as int].gicr@ == (GicrState {
                waker: wake_result(old(self).frames@[cpu as int].gicr@.waker),
                ..old(self).frames@[cpu as int].gicr@
            }),
            r == (if wake_succeeds(old(self).frames@[cpu as int].gicr@.waker) {
                Result::<(), GICRError>::Ok(())
            } else {
                Result::<(), GICRError>::Err(GICRError::AlreadyAwake)
            }),
            !children_asleep(final(self).frames@[cpu as int].gicr@.waker),
    {
        let frame = &mut self.frames[cpu];
        let w = frame.gicr.read_waker();

        // The processor-sleep request may be withdrawn only while the
        // children-asleep acknowledgment is set.
        if w.bits & WAKER_CHILDREN_ASLEEP == 0 {
            return Err(GICRError::AlreadyAwake);
        }

        // Mark the connected core as awake.
        frame.gicr.write_waker(Waker { bits: w.bits & !WAKER_PROCESSOR_SLEEP });
        proof {
            let b = w.bits;
            assert((b & !0x2u32) & 0x2u32 == 0) by (bit_vector);
        }

        // Wait until the children-asleep acknowledgment clears.
        let ghost fsnap = *frame;
        while frame.gicr.read_waker().bits & WAKER_CHILDREN_ASLEEP != 0
            invariant
                *frame == fsnap,
                !children_asleep(frame.gicr@.waker),
            decreases 0int,
        {
        }

        Ok(())
    }

    /// Informs the GIC redistributor of core `cpu` that the core is asleep,
    /// then blocks until the children-asleep acknowledgment sets; the
    /// model's hardware side answers instantly. Fails with `AlreadyAsleep`,
    /// writing nothing, if the acknowledgment is already set.
    pub fn redistributor_mark_core_asleep(&mut self, cpu: usize) -> (r: Result<(), GICRError>)
        requires
            old(self).wf(),
            cpu < old(self).frames@.len(),
        ensures
            final(self).wf(),
            final(self).gicd == old(self).gicd,
            final(self).gicr_stride == old(self).gicr_stride,
            final(self).frames@.len() == old(self).frames@.len(),
            forall|j: int|
                0 <= j < old(self).frames@.len() && j != cpu ==> final(self).frames@[j] == old(
                    self,
                ).frames@[j],
            final(self).frames@[cpu as int].sgi == old(self).frames@[cpu as int].sgi,
            final(self).frames@[cpu as int].gicr@ == (GicrState {
                waker: sleep_result(old(self).frames@[cpu as int].gicr@.waker),
                ..old(self).frames@[cpu as int].gicr@
            }),
            r == (if sleep_succeeds(old(self).frames@[cpu as int].gicr@.waker) {
                Result::<(), GICRError>::Ok(())
            } else {
                Result::<(), GICRError>::Err(GICRError::AlreadyAsleep)
            }),
            children_asleep(final(self).frames@[cpu as int].gicr@.waker),
    {
        let frame = &mut self.frames[cpu];
        let w = frame.gicr.read_waker();

        // The processor-sleep request may be posted only while the
        // children-asleep acknowledgment is clear.
        if w.bits & WAKER_CHILDREN_ASLEEP != 0 {
            return Err(GICRError::AlreadyAsleep);
        }

        // Mark the connected core as asleep.
        frame.gicr.write_waker(Waker { bits: w.bits | WAKER_PROCESSOR_SLEEP });
        proof {
            let b = w.bits;
            assert((b | 0x2u32) & 0x2u32 != 0) by (bit_vector);
        }

        // Wait until the children-asleep acknowledgment sets.
        let ghost fsnap = *frame;
        while frame.gicr.read_waker().bits & WAKER_CHILDREN_ASLEEP == 0
            invariant
                *frame == fsnap,
                children_asleep(frame.gicr@.waker),
            decreases 0int,
        {
        }

        Ok(())
    }

    /// Enables or disables group 0 interrupts at the CPU interface whose
    /// system registers are given.
    pub fn enable_group0(regs: &mut SystemRegisters, enable: bool)
        ensures
            *final(regs) == (SystemRegisters {
                icc_igrpen0_el1: if enable {
                    1u32
                } else {
                    0u32
                },
                ..*old(regs)
            }),
    {
        regs.icc_igrpen0_el1 = if enable {
            0x01
        } else {
            0x00
        };
    }

    /// Enables or disables group 1 interrupts for the current security
    /// state at the CPU interface whose system registers are given.
    pub fn enable_group1(regs: &mut SystemRegisters, enable: bool)
        ensures
            *final(regs) == (SystemRegisters {
                icc_igrpen1_el1: if enable {
                    1u32
                } else {
                    0u32
                },
                ..*old(regs)
            }),
    {
        regs.icc_igrpen1_el1 = if enable {
            0x01
        } else {
            0x00
        };
    }

    /// Enables system register access, marks core `cpu` as awake — ignoring
    /// the error if it already was — and sets the basic CPU interface
    /// configuration: the priority mask is not used as a distribution hint,
    /// an end-of-interrupt write also deactivates, and group 0 and group 1
    /// preempt separately.
    pub fn init_cpu(&mut self, regs: &mut SystemRegisters, cpu: usize)
        requires
            old(self).wf(),
            cpu < old(self).frames@.len(),
        ensures
            final(self).wf(),
            final(self).gicd == old(self).gicd,
            final(self).gicr_stride == old(self).gicr_stride,
            final(self).frames@.len() == old(self).frames@.len(),
            forall|j: int|
                0 <= j < old(self).frames@.len() && j != cpu ==> final(self).frames@[j] == old(
                    self,
                ).frames@[j],
            final(self).frames@[cpu as int].sgi == old(self).frames@[cpu as int].sgi,
            final(self).frames@[cpu as int].gicr@ == (GicrState {
                waker: wake_result(old(self).frames@[cpu as int].gicr@.waker),
                ..old(self).frames@[cpu as int].gicr@
            }),
            !children_asleep(final(self).frames@[cpu as int].gicr@.waker),
            *final(regs) == (SystemRegisters {
                icc_sre_el1: 1u32,
                icc_ctlr_el1: 0u32,
                ..*old(regs)
            }),
    {
        // Enable system register access.
        regs.icc_sre_el1 = 0x01;

        // Ignore the error in case the core is already awake.
        let _ = self.redistributor_mark_core_awake(cpu);

        // Do not use the priority mask as a distribution hint, let an
        // end-of-interrupt write also deactivate, and keep separate
        // preemption groups for group 0 and group 1.
        regs.icc_ctlr_el1 = 0;
    }

    /// Initialises the GIC and marks core `cpu` as awake: enables affinity
    /// routing and non-secure group 1 at the distributor, places every
    /// private interrupt of every core and every SPI into non-secure group
    /// 1, and enables group 1 delivery at the calling core's CPU interface.
    pub fn setup(&mut self, regs: &mut SystemRegisters, cpu: usize)
        requires
            old(self).wf(),
            cpu < old(self).frames@.len(),
        ensures
            final(self).wf(),
            final(self).gicr_stride == old(self).gicr_stride,
            final(self).gicd@.ctlr == GICD_CTLR_ARE_S | GICD_CTLR_ENABLE_GRP1NS,
            final(self).gicd@.typer == old(self).gicd@.typer,
            final(self).gicd@.igroupr.len() == 32,
            final(self).gicd@.igroupr[0] == old(self).gicd@.igroupr[0],
            forall|i: int| 1 <= i < 32 ==> final(self).gicd@.igroupr[i] == 0xffff_ffffu32,
            final(self).gicd@.enable == old(self).gicd@.enable,
            final(self).gicd@.ipriorityr == old(self).gicd@.ipriorityr,
            final(self).gicd@.icfgr == old(self).gicd@.icfgr,
            final(self).gicd@.igrpmodr == old(self).gicd@.igrpmodr,
            final(self).frames@.len() == old(self).frames@.len(),
            forall|c: int|
                0 <= c < old(self).frames@.len() ==> (#[trigger] final(self).frames@[c]).sgi@
                    == (SgiState { igroupr0: 0xffff_ffffu32, ..old(self).frames@[c].sgi@ }),
            forall|j: int|
                0 <= j < old(self).frames@.len() && j != cpu ==> (#[trigger] final(self).frames@[j]).gicr
                    == old(self).frames@[j].gicr,
            final(self).frames@[cpu as int].gicr@ == (GicrState {
                waker: wake_result(old(self).frames@[cpu as int].gicr@.waker),
                ..old(self).frames@[cpu as int].gicr@
            }),
            !children_asleep(final(self).frames@[cpu as int].gicr@.waker),
            *final(regs) == (SystemRegisters {
                icc_sre_el1: 1u32,
                icc_ctlr_el1: 0u32,
                icc_igrpen1_el1: 1u32,
                ..*old(regs)
            }),
    {
        self.init_cpu(regs, cpu);

        // Enable affinity routing and non-secure group 1 interrupts.
        self.gicd.write_ctlr(GicdCtlr { bits: GICD_CTLR_ARE_S | GICD_CTLR_ENABLE_GRP1NS });
        proof {
            assert((0x10u32 | 0x2u32) & !0x8000_0000u32 == (0x10u32 | 0x2u32)) by (bit_vector);
        }

        // Put all SGIs and PPIs into non-secure group 1.
        let ghost mid = *self;
        let n = self.frames.len();
        let mut c: usize = 0;
        while c < n
            invariant
                c <= n,
                self.wf(),
                self.gicd == mid.gicd,
                self.gicr_stride == mid.gicr_stride,
                self.frames@.len() == mid.frames@.len() == n,
                forall|j: int|
                    0 <= j < c ==> (#[trigger] self.frames@[j]).sgi@ == (SgiState {
                        igroupr0: 0xffff_ffffu32,
                        ..mid.frames@[j].sgi@
                    }),
                forall|j: int| 0 <= j < c ==> (#[trigger] self.frames@[j]).gicr == mid.frames@[j].gicr,
                forall|j: int| c <= j < n ==> (#[trigger] self.frames@[j]) == mid.frames@[j],
            decreases n - c,
        {
            let frame = &mut self.frames[c];
            frame.sgi.write_igroupr0(0xffff_ffff);
            c = c + 1;
        }

        // Put all SPIs into non-secure group 1.
        let ghost mid2 = *self;
        let mut i: usize = 1;
        while i < 32
            invariant
                1 <= i <= 32,
                self.wf(),
                self.frames == mid2.frames,
                self.gicr_stride == mid2.gicr_stride,
                self.gicd@.ctlr == mid2.gicd@.ctlr,
                self.gicd@.typer == mid2.gicd@.typer,
                self.gicd@.igroupr.len() == 32,
                self.gicd@.igroupr[0] == mid2.gicd@.igroupr[0],
                forall|j: int| 1 <= j < i ==> self.gicd@.igroupr[j] == 0xffff_ffffu32,
                forall|j: int| i <= j < 32 ==> self.gicd@.igroupr[j] == mid2.gicd@.igroupr[j],
                self.gicd@.enable == mid2.gicd@.enable,
                self.gicd@.ipriorityr == mid2.gicd@.ipriorityr,
                self.gicd@.icfgr == mid2.gicd@.icfgr,
                self.gicd@.igrpmodr == mid2.gicd@.igrpmodr,
            decreases 32 - i,
        {
            self.gicd.write_igroupr(i, 0xffff_ffff);
            i = i + 1;
        }

        // Enable group 1 for the current security state.
        Self::enable_group1(regs, true);
    }

    /// Enables or disables the interrupt with the given ID: a private
    /// interrupt at the SGI and PPI frame of the core named by `cpu`, a
    /// shared interrupt at the distributor. Only the addressed line's bit is
    /// written; affinity routing is taken to be enabled.
    pub fn enable_interrupt(&mut self, intid: IntId, cpu: Option<usize>, enable: bool)
        requires
            old(self).wf(),
            intid.is_private() ==> (cpu matches Some(c) && intid.raw() < 32 && c < old(
                self,
            ).frames@.len()),
            !intid.is_private() ==> intid.raw() < 1024,
        ensures
            final(self).wf(),
            final(self).gicr_stride == old(self).gicr_stride,
            intid.is_private() ==> final(self).gicd == old(self).gicd,
            intid.is_private() ==> (cpu matches Some(c) && final(self).frames@ == old(
                self,
            ).frames@.update(
                c as int,
                (GicrSgi {
                    gicr: old(self).frames@[c as int].gicr,
                    sgi: final(self).frames@[c as int].sgi,
                }),
            ) && final(self).frames@[c as int].sgi@ == (SgiState {
                enable0: if enable {
                    spec_bit_set(old(self).frames@[c as int].sgi@.enable0, intid.raw())
                } else {
                    spec_bit_clear(old(self).frames@[c as int].sgi@.enable0, intid.raw())
                },
                ..old(self).frames@[c as int].sgi@
            }) && bit_get(final(self).frames@[c as int].sgi@.enable0, intid.raw()) == enable),
            !intid.is_private() ==> final(self).frames == old(self).frames,
            !intid.is_private() ==> final(self).gicd@ == (GicdState {
                enable: old(self).gicd@.enable.update(
                    (intid.raw() / 32) as int,
                    if enable {
                        spec_bit_set(
                            old(self).gicd@.enable[(intid.raw() / 32) as int],
                            intid.raw() % 32,
                        )
                    } else {
                        spec_bit_clear(
                            old(self).gicd@.enable[(intid.raw() / 32) as int],
                            intid.raw() % 32,
                        )
                    },
                ),
                ..old(self).gicd@
            }),
            !intid.is_private() ==> bit_get(
                final(self).gicd@.enable[(intid.raw() / 32) as int],
                intid.raw() % 32,
            ) == enable,
    {
        if intid.is_private() {
            let c = cpu.unwrap();
            let bit = 1u32 << intid.raw();
            proof {
                crate::bitops::lemma_bit_isolated(
                    old(self).frames@[c as int].sgi@.enable0,
                    intid.raw(),
                );
            }
            let frame = &mut self.frames[c];
            if enable {
                frame.sgi.write_isenabler0(bit);
            } else {
                frame.sgi.write_icenabler0(bit);
            }
        } else {
            let index = (intid.raw() / 32) as usize;
            let bit = 1u32 << (intid.raw() % 32);
            proof {
                crate::bitops::lemma_bit_isolated(
                    old(self).gicd@.enable[(intid.raw() / 32) as int],
                    intid.raw() % 32,
                );
            }
            if enable {
                self.gicd.write_isenabler(index, bit);
            } else {
                self.gicd.write_icenabler(index, bit);
            }
        }
    }

    /// Enables or disables every shared interrupt at the distributor and
    /// every private interrupt at every core's SGI and PPI frame.
    pub fn enable_all_interrupts(&mut self, enable: bool)
        requires
            old(self).wf(),
        ensures
            final(self).wf(),
            final(self).gicr_stride == old(self).gicr_stride,
            final(self).gicd@.ctlr == old(self).gicd@.ctlr,
            final(self).gicd@.typer == old(self).gicd@.typer,
            final(self).gicd@.igroupr == old(self).gicd@.igroupr,
            final(self).gicd@.ipriorityr == old(self).gicd@.ipriorityr,
            final(self).gicd@.icfgr == old(self).gicd@.icfgr,
            final(self).gicd@.igrpmodr == old(self).gicd@.igrpmodr,
            final(self).gicd@.enable.len() == 32,
            final(self).gicd@.enable[0] == old(self).gicd@.enable[0],
            forall|i: int|
                1 <= i < 32 ==> final(self).gicd@.enable[i] == (if enable {
                    0xffff_ffffu32
                } else {
                    0u32
                }),
            final(self).frames@.len() == old(self).frames@.len(),
            forall|c: int|
                0 <= c < old(self).frames@.len() ==> (#[trigger] final(self).frames@[c]).sgi@
                    == (SgiState {
                    enable0: if enable {
                        0xffff_ffffu32
                    } else {
                        0u32
                    },
                    ..old(self).frames@[c].sgi@
                }),
            forall|c: int|
                0 <= c < old(self).frames@.len() ==> (#[trigger] final(self).frames@[c]).gicr
                    == old(self).frames@[c].gicr,
    {
        let mut i: usize = 1;
        while i < 32
            invariant
                1 <= i <= 32,
                self.wf(),
                self.frames == old(self).frames,
                self.gicr_stride == old(self).gicr_stride,
                self.gicd@.ctlr == old(self).gicd@.ctlr,
                self.gicd@.typer == old(self).gicd@.typer,
                self.gicd@.igroupr == old(self).gicd@.igroupr,
                self.gicd@.ipriorityr == old(self).gicd@.ipriorityr,
                self.gicd@.icfgr == old(self).gicd@.icfgr,
                self.gicd@.igrpmodr == old(self).gicd@.igrpmodr,
                self.gicd@.enable.len() == 32,
                self.gicd@.enable[0] == old(self).gicd@.enable[0],
                forall|j: int|
                    1 <= j < i ==> self.gicd@.enable[j] == (if enable {
                        0xffff_ffffu32
                    } else {
                        0u32
                    }),
                forall|j: int| i <= j < 32 ==> self.gicd@.enable[j] == old(self).gicd@.enable[j],
            decreases 32 - i,
        {
            proof {
                let e = self.gicd@.enable[i as int];
                assert(e | 0xffff_ffffu32 == 0xffff_ffffu32 && e & !0xffff_ffffu32 == 0u32)
                    by (bit_vector);
            }
            if enable {
                self.gicd.write_isenabler(i, 0xffff_ffff);
            } else {
                self.gicd.write_icenabler(i, 0xffff_ffff);
            }
            i = i + 1;
        }
        let ghost mid = *self;
        let n = self.frames.len();
        let mut c: usize = 0;
        while c < n
            invariant
                c <= n,
                self.wf(),
                self.gicd == mid.gicd,
                self.gicr_stride == mid.gicr_stride,
                self.frames@.len() == mid.frames@.len() == n,
                forall|j: int|
                    0 <= j < c ==> (#[trigger] self.frames@[j]).sgi@ == (SgiState {
                        enable0: if enable {
                            0xffff_ffffu32
                        } else {
                            0u32
                        },
                        ..mid.frames@[j].sgi@
                    }),
                forall|j: int| 0 <= j < c ==> (#[trigger] self.frames@[j]).gicr == mid.frames@[j].gicr,
                forall|j: int| c <= j < n ==> (#[trigger] self.frames@[j]) == mid.frames@[j],
            decreases n - c,
        {
            proof {
                let e = self.frames@[c as int].sgi@.enable0;
                assert(e | 0xffff_ffffu32 == 0xffff_ffffu32 && e & !0xffff_ffffu32 == 0u32)
                    by (bit_vector);
            }
            let frame = &mut self.frames[c];
            if enable {
                frame.sgi.write_isenabler0(0xffff_ffff);
            } else {
                frame.sgi.write_icenabler0(0xffff_ffff);
            }
            c = c + 1;
        }
    }

    /// Sets the priority mask at the CPU interface whose system registers
    /// are given.
    ///
    /// Only interrupts with a higher priority (numerically lower) will be signalled.
    pub fn set_priority_mask(regs: &mut SystemRegisters, min_priority: u8)
        ensures
            *final(regs) == (SystemRegisters {
                icc_pmr_el1: min_priority as u32,
                ..*old(regs)
            }),
    {
        regs.icc_pmr_el1 = min_priority as u32;
    }

    /// Sets the priority of the interrupt with the given ID: a private
    /// interrupt at the SGI and PPI frame of the core named by `cpu`, a
    /// shared interrupt at the distributor. The priority registers hold one
    /// byte per interrupt, so no sibling is touched.
    ///
    /// Note that lower numbers correspond to higher priorities; i.e. 0 is the highest priority, and
    /// 255 is the lowest.
    pub fn set_interrupt_priority(&mut self, intid: IntId, cpu: Option<usize>, priority: u8)
        requires
            old(self).wf(),
            intid.is_private() ==> (cpu matches Some(c) && intid.raw() < 32 && c < old(
                self,
            ).frames@.len()),
            !intid.is_private() ==> intid.raw() < 1024,
        ensures
            final(self).wf(),
            final(self).gicr_stride == old(self).gicr_stride,
            intid.is_private() ==> final(self).gicd == old(self).gicd,
            intid.is_private() ==> (cpu matches Some(c) && final(self).frames@ == old(
                self,
            ).frames@.update(
                c as int,
                (GicrSgi {
                    gicr: old(self).frames@[c as int].gicr,
                    sgi: final(self).frames@[c as int].sgi,
                }),
            ) && final(self).frames@[c as int].sgi@ == (SgiState {
                ipriorityr: old(self).frames@[c as int].sgi@.ipriorityr.update(
                    intid.raw() as int,
                    priority,
                ),
                ..old(self).frames@[c as int].sgi@
            })),
            !intid.is_private() ==> final(self).frames == old(self).frames,
            !intid.is_private() ==> final(self).gicd@ == (GicdState {
                ipriorityr: old(self).gicd@.ipriorityr.update(intid.raw() as int, priority),
                ..old(self).gicd@
            }),
    {
        if intid.is_private() {
            let c = cpu.unwrap();
            let frame = &mut self.frames[c];
            frame.sgi.write_ipriorityr(intid.raw() as usize, priority);
        } else {
            self.gicd.write_ipriorityr(intid.raw() as usize, priority);
        }
    }

    /// Configures the trigger type for the interrupt with the given ID,
    /// writing only the odd bit of its two-bit configuration field: a
    /// private interrupt at the SGI and PPI frame of the core named by
    /// `cpu`, a shared interrupt at the distributor.
    pub fn set_trigger(&mut self, intid: IntId, cpu: Option<usize>, trigger: Trigger)
        requires
            old(self).wf(),
            intid.is_private() ==> (cpu matches Some(c) && intid.raw() < 32 && c < old(
                self,
            ).frames@.len()),
            !intid.is_private() ==> intid.raw() < 1024,
        ensures
            final(self).wf(),
            final(self).gicr_stride == old(self).gicr_stride,
            intid.is_private() ==> final(self).gicd == old(self).gicd,
            intid.is_private() ==> (cpu matches Some(c) && final(self).frames@ == old(
                self,
            ).frames@.update(
                c as int,
                (GicrSgi {
                    gicr: old(self).frames@[c as int].gicr,
                    sgi: final(self).frames@[c as int].sgi,
                }),
            ) && final(self).frames@[c as int].sgi@ == (SgiState {
                icfgr: old(self).frames@[c as int].sgi@.icfgr.update(
                    (intid.raw() / 16) as int,
                    if trigger is Edge {
                        spec_bit_set(
                            old(self).frames@[c as int].sgi@.icfgr[(intid.raw() / 16) as int],
                            ((intid.raw() % 16) * 2 + 1) as u32,
                        )
                    } else {
                        spec_bit_clear(
                            old(self).frames@[c as int].sgi@.icfgr[(intid.raw() / 16) as int],
                            ((intid.raw() % 16) * 2 + 1) as u32,
                        )
                    },
                ),
                ..old(self).frames@[c as int].sgi@
            }) && bit_get(
                final(self).frames@[c as int].sgi@.icfgr[(intid.raw() / 16) as int],
                ((intid.raw() % 16) * 2 + 1) as u32,
            ) == (trigger is Edge)),
            !intid.is_private() ==> final(self).frames == old(self).frames,
            !intid.is_private() ==> final(self).gicd@ == (GicdState {
                icfgr: old(self).gicd@.icfgr.update(
                    (intid.raw() / 16) as int,
                    if trigger is Edge {
                        spec_bit_set(
                            old(self).gicd@.icfgr[(intid.raw() / 16) as int],
                            ((intid.raw() % 16) * 2 + 1) as u32,
                        )
                    } else {
                        spec_bit_clear(
                            old(self).gicd@.icfgr[(intid.raw() / 16) as int],
                            ((intid.raw() % 16) * 2 + 1) as u32,
                        )
                    },
                ),
                ..old(self).gicd@
            }),
            !intid.is_private() ==> bit_get(
                final(self).gicd@.icfgr[(intid.raw() / 16) as int],
                ((intid.raw() % 16) * 2 + 1) as u32,
            ) == (trigger is Edge),
    {
        let index = (intid.raw() / 16) as usize;
        let pos = (intid.raw() % 16) * 2 + 1;
        if intid.is_private() {
            let c = cpu.unwrap();
            proof {
                crate::bitops::lemma_bit_isolated(
                    old(self).frames@[c as int].sgi@.icfgr[(intid.raw() / 16) as int],
                    ((intid.raw() % 16) * 2 + 1) as u32,
                );
            }
            let frame = &mut self.frames[c];
            let v = frame.sgi.read_icfgr(index);
            let updated = match trigger {
                Trigger::Edge => bit_set(v, pos),
                Trigger::Level => bit_clear(v, pos),
            };
            frame.sgi.write_icfgr(index, updated);
        } else {
            proof {
                crate::bitops::lemma_bit_isolated(
                    old(self).gicd@.icfgr[(intid.raw() / 16) as int],
                    ((intid.raw() % 16) * 2 + 1) as u32,
                );
            }
            let v = self.gicd.read_icfgr(index);
            let updated = match trigger {
                Trigger::Edge => bit_set(v, pos),
                Trigger::Level => bit_clear(v, pos),
            };
            self.gicd.write_icfgr(index, updated);
        }
    }

    /// Assigns the interrupt with ID `intid` to interrupt group `group`:
    /// non-secure group 1 sets the group bit and clears the modifier bit,
    /// secure group 1 clears the group bit and sets the modifier bit, and
    /// group 0 clears both. Private interrupts are configured at the SGI and
    /// PPI frame of the core named by `cpu`, shared ones at the distributor.
    pub fn set_group(&mut self, intid: IntId, cpu: Option<usize>, group: Group)
        requires
            old(self).wf(),
            intid.is_private() ==> (cpu matches Some(c) && intid.raw() < 32 && c < old(
                self,
            ).frames@.len()),
            !intid.is_private() ==> intid.raw() < 1024,
        ensures
            final(self).wf(),
            final(self).gicr_stride == old(self).gicr_stride,
            intid.is_private() ==> final(self).gicd == old(self).gicd,
            intid.is_private() ==> (cpu matches Some(c) && final(self).frames@ == old(
                self,
            ).frames@.update(
                c as int,
                (GicrSgi {
                    gicr: old(self).frames@[c as int].gicr,
                    sgi: final(self).frames@[c as int].sgi,
                }),
            ) && final(self).frames@[c as int].sgi@ == (SgiState {
                igroupr0: if group is Group1NS {
                    spec_bit_set(old(self).frames@[c as int].sgi@.igroupr0, intid.raw())
                } else {
                    spec_bit_clear(old(self).frames@[c as int].sgi@.igroupr0, intid.raw())
                },
                igrpmodr0: if group matches Group::Secure(SecureIntGroup::Group1S) {
                    spec_bit_set(old(self).frames@[c as int].sgi@.igrpmodr0, intid.raw())
                } else {
                    spec_bit_clear(old(self).frames@[c as int].sgi@.igrpmodr0, intid.raw())
                },
                ..old(self).frames@[c as int].sgi@
            })),
            !intid.is_private() ==> final(self).frames == old(self).frames,
            !intid.is_private() ==> final(self).gicd@ == (GicdState {
                igroupr: old(self).gicd@.igroupr.update(
                    (intid.raw() / 32) as int,
                    if group is Group1NS {
                        spec_bit_set(
                            old(self).gicd@.igroupr[(intid.raw() / 32) as int],
                            intid.raw() % 32,
                        )
                    } else {
                        spec_bit_clear(
                            old(self).gicd@.igroupr[(intid.raw() / 32) as int],
                            intid.raw() % 32,
                        )
                    },
                ),
                igrpmodr: old(self).gicd@.igrpmodr.update(
                    (intid.raw() / 32) as int,
                    if group matches Group::Secure(SecureIntGroup::Group1S) {
                        spec_bit_set(
                            old(self).gicd@.igrpmodr[(intid.raw() / 32) as int],
                            intid.raw() % 32,
                        )
                    } else {
                        spec_bit_clear(
                            old(self).gicd@.igrpmodr[(intid.raw() / 32) as int],
                            intid.raw() % 32,
                        )
                    },
                ),
                ..old(self).gicd@
            }),
    {
        if intid.is_private() {
            let c = cpu.unwrap();
            let frame = &mut self.frames[c];
            let raw = intid.raw();
            let groupr = frame.sgi.read_igroupr0();
            let modr = frame.sgi.read_igrpmodr0();
            match group {
                Group::Group1NS => {
                    frame.sgi.write_igroupr0(bit_set(groupr, raw));
                    frame.sgi.write_igrpmodr0(bit_clear(modr, raw));
                },
                Group::Secure(SecureIntGroup::Group1S) => {
                    frame.sgi.write_igroupr0(bit_clear(groupr, raw));
                    frame.sgi.write_igrpmodr0(bit_set(modr, raw));
                },
                Group::Secure(SecureIntGroup::Group0) => {
                    frame.sgi.write_igroupr0(bit_clear(groupr, raw));
                    frame.sgi.write_igrpmodr0(bit_clear(modr, raw));
                },
            }
        } else {
            let index = (intid.raw() / 32) as usize;
            let pos = intid.raw() % 32;
            let groupr = self.gicd.read_igroupr(index);
            let modr = self.gicd.read_igrpmodr(index);
            match group {
                Group::Group1NS => {
                    self.gicd.write_igroupr(index, bit_set(groupr, pos));
                    self.gicd.write_igrpmodr(index, bit_clear(modr, pos));
                },
                Group::Secure(SecureIntGroup::Group1S) => {
                    self.gicd.write_igroupr(index, bit_clear(groupr, pos));
                    self.gicd.write_igrpmodr(index, bit_set(modr, pos));
                },
                Group::Secure(SecureIntGroup::Group0) => {
                    self.gicd.write_igroupr(index, bit_clear(groupr, pos));
                    self.gicd.write_igrpmodr(index, bit_clear(modr, pos));
                },
            }
        }
    }

    /// Sends a software-generated interrupt (SGI) to the given cores through
    /// the CPU interface whose system registers are given.
    pub fn send_sgi(regs: &mut SystemRegisters, intid: IntId, target: SgiTarget)
        requires
            intid.is_sgi(),
        ensures
            *final(regs) == (SystemRegisters {
                icc_sgi1r_el1: sgi_value(intid, target),
                ..*old(regs)
            }),
    {
        let value: u64 = match target {
            SgiTarget::All => (((intid.raw() & 0x0f) as u64) << 24) | (1u64 << 40),
            SgiTarget::List { affinity3, affinity2, affinity1, target_list } => {
                (target_list as u64) | ((affinity1 as u64) << 16) | (((intid.raw() & 0x0f)
                    as u64) << 24) | ((affinity2 as u64) << 32) | ((affinity3 as u64) << 48)
            },
        };
        regs.icc_sgi1r_el1 = value;
    }

    /// Gets the ID of the highest priority signalled interrupt from the
    /// acknowledge register of the CPU interface whose system registers are
    /// given. On hardware the read acknowledges the interrupt, raising the
    /// running priority and marking it active; it must be paired one to one
    /// with `end_interrupt`.
    ///
    /// Returns `None` if there is no pending interrupt of sufficient
    /// priority, i.e. the register read the "no pending interrupt" value.
    pub fn get_and_acknowledge_interrupt(regs: &SystemRegisters) -> (r: Option<IntId>)
        ensures
            r is Some <==> regs.icc_iar1_el1 != crate::SPECIAL_END - 1,
            r matches Some(id) ==> id.raw() == regs.icc_iar1_el1,
    {
        let value = regs.icc_iar1_el1;
        if value == 1023 {
            None
        } else {
            Some(IntId::from_raw(value))
        }
    }

    /// Informs the interrupt controller that the CPU has completed
    /// processing the given interrupt, through the CPU interface whose
    /// system registers are given. This drops the interrupt priority and
    /// deactivates the interrupt.
    ///
    /// The ID must come from a matching acknowledge call; ending an
    /// unacknowledged interrupt is a contract violation against the
    /// hardware.
    pub fn end_interrupt(regs: &mut SystemRegisters, intid: IntId)
        ensures
            *final(regs) == (SystemRegisters {
                icc_eoir1_el1: intid.raw(),
                ..*old(regs)
            }),
    {
        regs.icc_eoir1_el1 = intid.raw();
    }

    /// Sets the given flags in the distributor control register by a
    /// read-modify-write, then waits out the write-pending barrier, since
    /// toggling affinity routing is not instantaneous.
    pub fn gicd_set_control(&mut self, flags: GicdCtlr)
        requires
            old(self).wf(),
        ensures
            final(self).wf(),
            final(self).frames == old(self).frames,
            final(self).gicr_stride == old(self).gicr_stride,
            final(self).gicd@ == (GicdState {
                ctlr: (old(self).gicd@.ctlr | flags.bits) & !GICD_CTLR_RWP,
                ..old(self).gicd@
            }),
    {
        let cur = self.gicd.read_ctlr();
        self.gicd.write_ctlr(cur.union(flags));
        self.gicd_barrier();
    }

    /// Clears the given flags in the distributor control register by a
    /// read-modify-write, then waits out the write-pending barrier.
    pub fn gicd_clear_control(&mut self, flags: GicdCtlr)
        requires
            old(self).wf(),
        ensures
            final(self).wf(),
            final(self).frames == old(self).frames,
            final(self).gicr_stride == old(self).gicr_stride,
            final(self).gicd@ == (GicdState {
                ctlr: (old(self).gicd@.ctlr & !flags.bits) & !GICD_CTLR_RWP,
                ..old(self).gicd@
            }),
    {
        let cur = self.gicd.read_ctlr();
        self.gicd.write_ctlr(cur.difference(flags));
        self.gicd_barrier();
    }
}

/// The raw value the SGI generation system register is given for the target
/// `target`, carrying interrupt `intid`: a broadcast sets the routing-mode
/// bit and omits the affinity fields; a targeted SGI packs the core bitmask
/// with affinity levels 1 to 3.
pub open spec fn sgi_value(intid: IntId, target: SgiTarget) -> u64 {
    match target {
        SgiTarget::All => (((intid.raw() & 0x0f) as u64) << 24) | (1u64 << 40),
        SgiTarget::List { affinity3, affinity2, affinity1, target_list } => (target_list as u64)
            | ((affinity1 as u64) << 16) | (((intid.raw() & 0x0f) as u64) << 24) | ((affinity2
            as u64) << 32) | ((affinity3 as u64) << 48),
    }
}

/// The group configuration for an interrupt.
#[derive(Copy, Clone, Debug, Eq, PartialEq, Structural)]
pub enum Group {
    /// The interrupt belongs to a secure group.
    Secure(SecureIntGroup),
    /// The interrupt belongs to non-secure group 1.
    Group1NS,
}

/// The secure group configuration for an interrupt.
#[derive(Copy, Clone, Debug, Eq, PartialEq, Structural)]
pub enum SecureIntGroup {
    /// The interrupt belongs to secure group 1.
    Group1S,
    /// The interrupt belongs to group 0.
    Group0,
}

/// The target specification for a software-generated interrupt.
#[derive(Copy, Clone, Debug, Eq, PartialEq, Structural)]
pub enum SgiTarget {
    /// The SGI is routed to all CPU cores except the current one.
    All,
    /// The SGI is routed to the CPU cores matching the given affinities and list.
    List {
        /// Affinity level 3 of the targeted cores.
        affinity3: u8,
        /// Affinity level 2 of the targeted cores.
        affinity2: u8,
        /// Affinity level 1 of the targeted cores.
        affinity1: u8,
        /// A bitmask of targeted cores at affinity level 0.
        target_list: u16,
    },
}

} // verus!
