//! Model of the GICv3 register blocks.
//!
//! Each block is held as plain data and reached only through methods that
//! match the access mode the architecture gives the register. The set-enable
//! and clear-enable registers share one underlying enable state, as on
//! hardware. Status bits the hardware owns — the distributor and
//! redistributor write-pending flags, and the children-asleep bit of the wake
//! register — cannot be written; the model completes the hardware's side of
//! each handshake instantly, so a write-pending flag always reads clear and
//! the children-asleep bit always follows the processor-sleep request.

use vstd::prelude::*;

verus! {

use crate::{ESPI_START, IntId, MAX_SPI_COUNT};

/// Register write pending flag of the distributor control register.
pub const GICD_CTLR_RWP: u32 = 0x8000_0000;

/// Non-secure SGI request flag of the distributor control register.
pub const GICD_CTLR_NASSGIREQ: u32 = 0x100;

/// Enable 1-of-N wakeup flag of the distributor control register.
pub const GICD_CTLR_E1NWF: u32 = 0x80;

/// Disable security flag of the distributor control register.
pub const GICD_CTLR_DS: u32 = 0x40;

/// Non-secure affinity routing enable flag of the distributor control register.
pub const GICD_CTLR_ARE_NS: u32 = 0x20;

/// Secure affinity routing enable flag of the distributor control register.
pub const GICD_CTLR_ARE_S: u32 = 0x10;

/// Secure group 1 enable flag of the distributor control register.
pub const GICD_CTLR_ENABLE_GRP1S: u32 = 0x4;

/// Non-secure group 1 enable flag of the distributor control register.
pub const GICD_CTLR_ENABLE_GRP1NS: u32 = 0x2;

/// Group 0 enable flag of the distributor control register.
pub const GICD_CTLR_ENABLE_GRP0: u32 = 0x1;

/// A value of the GICv3 distributor control register.
#[derive(Copy, Clone, Debug, Eq, PartialEq, Structural)]
pub struct GicdCtlr {
    /// The raw bits of the register value.
    pub bits: u32,
}

impl GicdCtlr {
    /// Returns the value with no flag set.
    pub fn empty() -> (r: Self)
        ensures
            r.bits == 0,
    {
        GicdCtlr { bits: 0 }
    }

    /// Returns the value holding exactly the given bits.
    pub fn from_bits(bits: u32) -> (r: Self)
        ensures
            r.bits == bits,
    {
        GicdCtlr { bits }
    }

    /// Returns the union of the flags of `self` and `other`.
    pub fn union(self, other: Self) -> (r: Self)
        ensures
            r.bits == self.bits | other.bits,
    {
        GicdCtlr { bits: self.bits | other.bits }
    }

    /// Returns the flags of `self` without those of `other`.
    pub fn difference(self, other: Self) -> (r: Self)
        ensures
            r.bits == self.bits & !other.bits,
    {
        GicdCtlr { bits: self.bits & !other.bits }
    }

    /// Returns whether every flag of `flags` is set in `self`.
    pub fn contains(self, flags: Self) -> (r: bool)
        ensures
            r == (self.bits & flags.bits == flags.bits),
    {
        self.bits & flags.bits == flags.bits
    }
}

/// Upstream write pending flag of the redistributor control register.
pub const GICR_CTLR_UWP: u32 = 0x8000_0000;

/// Disable processor group 1 secure flag of the redistributor control register.
pub const GICR_CTLR_DPG1S: u32 = 0x0400_0000;

/// Disable processor group 1 non-secure flag of the redistributor control register.
pub const GICR_CTLR_DPG1NS: u32 = 0x0200_0000;

/// Disable processor group 0 flag of the redistributor control register.
pub const GICR_CTLR_DPG0: u32 = 0x0100_0000;

/// Register write pending flag of the redistributor control register.
pub const GICR_CTLR_RWP: u32 = 0x8;

/// Implementation reserved flag of the redistributor control register.
pub const GICR_CTLR_IR: u32 = 0x4;

/// Clear enable supported flag of the redistributor control register.
pub const GICR_CTLR_CES: u32 = 0x2;

/// LPI enable flag of the redistributor control register.
pub const GICR_CTLR_ENABLE_LPIS: u32 = 0x1;

/// A value of the redistributor control register.
#[derive(Copy, Clone, Debug, Eq, PartialEq, Structural)]
pub struct GicrCtlr {
    /// The raw bits of the register value.
    pub bits: u32,
}

impl GicrCtlr {
    /// Returns whether every flag of `flags` is set in `self`.
    pub fn contains(self, flags: Self) -> (r: bool)
        ensures
            r == (self.bits & flags.bits == flags.bits),
    {
        self.bits & flags.bits == flags.bits
    }
}

/// Redistributor group powered off flag (RDGPO) of the power register: the
/// cluster interface is safe to power down.
pub const GICR_PWRR_GROUP_POWERED_OFF: u32 = 0x8;

/// Redistributor group power down flag (RDGPD) of the power register: the
/// intended power state of the cluster interface.
pub const GICR_PWRR_GROUP_POWER_DOWN: u32 = 0x4;

/// Redistributor apply-to-group flag (RDAG) of the power register.
pub const GICR_PWRR_APPLY_GROUP: u32 = 0x2;

/// Redistributor power down flag (RDPD) of the power register.
pub const GICR_PWRR_POWER_DOWN: u32 = 0x1;

/// A value of the redistributor power register, implemented on GIC-600 and
/// GIC-700 only.
#[derive(Copy, Clone, Debug, Eq, PartialEq, Structural)]
pub struct GicrPwrr {
    /// The raw bits of the register value.
    pub bits: u32,
}

/// Redistributor implementer identification register value.
#[derive(Copy, Clone, Debug, Eq, PartialEq, Structural)]
pub struct GicrIidr(pub u32);

/// The identification value a GIC-600 redistributor reports.
pub const MODEL_ID_ARM_GIC_600: u32 = 0x0200043b;

/// The identification value a GIC-600AE redistributor reports.
pub const MODEL_ID_ARM_GIC_600AE: u32 = 0x0300043b;

/// The identification value a GIC-700 redistributor reports.
pub const MODEL_ID_ARM_GIC_700: u32 = 0x0400043b;

impl GicrIidr {
    /// Returns the model ID of the redistributor: its product ID together
    /// with its implementer.
    pub fn model_id(self) -> (r: u32)
        ensures
            r == self.0 & ((0xffu32 << 24) | 0xfff),
    {
        self.0 & ((0xff << 24) | 0xfff)
    }
}

/// Interrupt controller redistributor type register value.
#[derive(Clone, Copy, Debug, Eq, PartialEq, Structural)]
pub struct GicrTyper(pub u64);

impl GicrTyper {
    /// Returns the affinity of the PE associated with this redistributor,
    /// one byte per affinity level, level 0 first.
    pub fn affinity_value(self) -> (r: [u8; 4])
        ensures
            r[0] == (self.0 >> 32) as u8,
            r[1] == (self.0 >> 40) as u8,
            r[2] == (self.0 >> 48) as u8,
            r[3] == (self.0 >> 56) as u8,
    {
        [(self.0 >> 32) as u8, (self.0 >> 40) as u8, (self.0 >> 48) as u8, (self.0 >> 56) as u8]
    }

    /// Returns the MPIDR value for the core this redistributor serves:
    /// affinity levels 0 to 2 in the low three bytes, affinity level 3 in
    /// the fifth byte, as the architecture lays that register out.
    ///
    /// This should be used to discover redistributor order with respect to
    /// the chosen linear core ID.
    pub fn core_mpidr(self) -> (r: u64)
        ensures
            r == ((self.0 >> 32) & 0xff_ffff) | (((self.0 >> 56) & 0xff) << 32),
    {
        ((self.0 >> 32) & 0xff_ffff) | (((self.0 >> 56) & 0xff) << 32)
    }

    /// Returns the maximum number of extended PPI interrupt IDs supported,
    /// 32 for each step of the PPInum field.
    pub fn max_eppi_count(self) -> (r: u32)
        ensures
            r == 32 * (((self.0 >> 27) & 0b11111) as u32),
    {
        let t = self.0;
        assert((t >> 27) & 0b11111 <= 0b11111) by (bit_vector);
        32 * (((t >> 27) & 0b11111) as u32)
    }

    /// Returns a unique ID for the PE associated with this redistributor.
    pub fn processor_number(self) -> (r: u16)
        ensures
            r == (self.0 >> 8) as u16,
    {
        (self.0 >> 8) as u16
    }

    /// Returns whether MPAM is supported.
    pub fn mpam_supported(self) -> (r: bool)
        ensures
            r == (self.0 & (1u64 << 6) != 0),
    {
        self.0 & (1 << 6) != 0
    }

    /// Returns whether the redistributor supports Disable Processor Group.
    pub fn disable_processor_group_supported(self) -> (r: bool)
        ensures
            r == (self.0 & (1u64 << 5) != 0),
    {
        self.0 & (1 << 5) != 0
    }

    /// Returns whether this redistributor is the last redistributor on the chip.
    pub fn last_redistributor(self) -> (r: bool)
        ensures
            r == (self.0 & (1u64 << 4) != 0),
    {
        self.0 & (1 << 4) != 0
    }

    /// Returns whether direct injection of LPIs is supported.
    pub fn direct_lpis_supported(self) -> (r: bool)
        ensures
            r == (self.0 & (1u64 << 3) != 0),
    {
        self.0 & (1 << 3) != 0
    }

    /// Returns whether VPENDBASER.Dirty is supported.
    pub fn dirty_supported(self) -> (r: bool)
        ensures
            r == (self.0 & (1u64 << 2) != 0),
    {
        self.0 & (1 << 2) != 0
    }

    /// Returns whether virtual LPIs are supported.
    pub fn virtual_lpis_supported(self) -> (r: bool)
        ensures
            r == (self.0 & 2 != 0),
    {
        self.0 & 2 != 0
    }

    /// Returns whether physical LPIs are supported.
    pub fn physical_lpis_supported(self) -> (r: bool)
        ensures
            r == (self.0 & 1u64 != 0),
    {
        self.0 & 1 != 0
    }
}

/// Interrupt controller type register value.
#[derive(Clone, Copy, Debug, Eq, PartialEq, Structural)]
pub struct Typer(pub u32);

impl Typer {
    /// Returns the highest supported extended SPI interrupt ID: the
    /// ESPI_range field counts blocks of 32 IDs above the base of the range.
    pub fn max_espi(self) -> (r: IntId)
        ensures
            r.raw() == ESPI_START + 32 * (self.0 >> 27) + 31,
    {
        let t = self.0;
        assert(t >> 27 <= 31) by (bit_vector);
        let id = IntId::espi(32 * (t >> 27) + 31);
        id.unwrap()
    }

    /// Returns the range of affinity level 0 values supported for targeted SGIs.
    pub fn range_selector_support(self) -> (r: RangeSelectorSupport)
        ensures
            r == (if self.0 & (1u32 << 26) == 0 {
                RangeSelectorSupport::AffZero16
            } else {
                RangeSelectorSupport::AffZero256
            }),
    {
        if self.0 & (1 << 26) == 0 {
            RangeSelectorSupport::AffZero16
        } else {
            RangeSelectorSupport::AffZero256
        }
    }

    /// Returns whether 1 of N SPI interrupts are supported.
    pub fn one_of_n_supported(self) -> (r: bool)
        ensures
            r == (self.0 & (1u32 << 25) == 0),
    {
        self.0 & (1 << 25) == 0
    }

    /// Returns whether the distributor supports nonzero values for affinity level 3.
    pub fn affinity_3_supported(self) -> (r: bool)
        ensures
            r == (self.0 & (1u32 << 24) != 0),
    {
        self.0 & (1 << 24) != 0
    }

    /// Returns the number of interrupt ID bits supported.
    pub fn id_bits(self) -> (r: u32)
        ensures
            r == ((self.0 >> 19) & 0b11111) + 1,
    {
        let t = self.0;
        assert((t >> 19) & 0b11111 <= 0b11111) by (bit_vector);
        ((t >> 19) & 0b11111) + 1
    }

    /// Returns whether Direct Virtual LPI injection is supported.
    pub fn dvi_supported(self) -> (r: bool)
        ensures
            r == (self.0 & (1u32 << 18) != 0),
    {
        self.0 & (1 << 18) != 0
    }

    /// Returns whether LPIs are supported.
    pub fn lpis_supported(self) -> (r: bool)
        ensures
            r == (self.0 & (1u32 << 17) != 0),
    {
        self.0 & (1 << 17) != 0
    }

    /// Returns whether message-based interrupts are supported.
    pub fn mpis_supported(self) -> (r: bool)
        ensures
            r == (self.0 & (1u32 << 16) != 0),
    {
        self.0 & (1 << 16) != 0
    }

    /// Returns the number of LPIs supported: taken from the num_LPIs field
    /// when it is nonzero, else derived from the number of interrupt ID bits.
    ///
    /// A num_LPIs field of zero together with all ID bits is the one
    /// combination the computation cannot represent, and it is excluded.
    pub fn num_lpis(self) -> (r: u32)
        requires
            (self.0 >> 11) & 0b11111 != 0 || (self.0 >> 19) & 0b11111 != 0b11111,
        ensures
            (self.0 >> 11) & 0b11111 == 0 ==> r == (if (1u32 << (((self.0 >> 19) & 0b11111) + 1)
                as u32) >= 8192 {
                ((1u32 << ((((self.0 >> 19) & 0b11111) + 1) as u32)) - 8192) as int
            } else {
                0int
            }),
            (self.0 >> 11) & 0b11111 != 0 ==> r == 2u32 << ((self.0 >> 11) & 0b11111),
    {
        let t = self.0;
        let num_lpis_field = (t >> 11) & 0b11111;
        assert((t >> 11) & 0b11111 <= 0b11111 && (t >> 19) & 0b11111 <= 0b11111) by (bit_vector);
        if num_lpis_field == 0 {
            let bits = self.id_bits();
            assert(bits < 32);
            let all = 1u32 << bits;
            if all >= 8192 {
                all - 8192
            } else {
                0
            }
        } else {
            2u32 << num_lpis_field
        }
    }

    /// Returns whether the GIC supports two security states.
    pub fn has_security_extension(self) -> (r: bool)
        ensures
            r == (self.0 & (1u32 << 10) != 0),
    {
        self.0 & (1 << 10) != 0
    }

    /// Returns whether the non-maskable interrupt property is supported.
    pub fn nmi_supported(self) -> (r: bool)
        ensures
            r == (self.0 & (1u32 << 9) != 0),
    {
        self.0 & (1 << 9) != 0
    }

    /// Returns whether the extended SPI range is implemented.
    pub fn espi_supported(self) -> (r: bool)
        ensures
            r == (self.0 & (1u32 << 8) != 0),
    {
        self.0 & (1 << 8) != 0
    }

    /// Returns the number of CPU cores supported when affinity routing is disabled.
    pub fn num_cpus(self) -> (r: u32)
        ensures
            r == (self.0 >> 5) & 0b111,
    {
        (self.0 >> 5) & 0b111
    }

    /// Returns the number of SPIs supported: 32 for each step of the
    /// ITLinesNumber field, capped at the width of the SPI range.
    pub fn num_spis(self) -> (r: u32)
        ensures
            r == (if 32 * (self.0 & 0b11111) < MAX_SPI_COUNT {
                (32 * (self.0 & 0b11111)) as u32
            } else {
                MAX_SPI_COUNT
            }),
    {
        let t = self.0;
        assert(t & 0b11111 <= 0b11111) by (bit_vector);
        let lines = 32 * (t & 0b11111);
        if lines < MAX_SPI_COUNT {
            lines
        } else {
            MAX_SPI_COUNT
        }
    }
}

/// The range of affinity level 0 values the controller can target an SGI at.
#[derive(Clone, Copy, Debug, Eq, PartialEq, Structural)]
pub enum RangeSelectorSupport {
    /// Targeted SGIs reach affinity level 0 values up to 15.
    AffZero16,
    /// Targeted SGIs reach affinity level 0 values up to 255.
    AffZero256,
}

/// Children asleep flag of the redistributor wake register, owned by the
/// hardware: it follows the processor sleep request.
pub const WAKER_CHILDREN_ASLEEP: u32 = 0x4;

/// Processor sleep request flag of the redistributor wake register.
pub const WAKER_PROCESSOR_SLEEP: u32 = 0x2;

/// A value of the redistributor wake register.
#[derive(Copy, Clone, Debug, Eq, PartialEq, Structural)]
pub struct Waker {
    /// The raw bits of the register value.
    pub bits: u32,
}

impl Waker {
    /// Returns whether every flag of `flags` is set in `self`.
    pub fn contains(self, flags: Self) -> (r: bool)
        ensures
            r == (self.bits & flags.bits == flags.bits),
    {
        self.bits & flags.bits == flags.bits
    }
}

/// Whether a wake register value has the children-asleep flag set.
pub open spec fn children_asleep(w: u32) -> bool {
    w & WAKER_CHILDREN_ASLEEP != 0
}

/// Whether a wake register value has the processor-sleep request flag set.
pub open spec fn processor_sleep(w: u32) -> bool {
    w & WAKER_PROCESSOR_SLEEP != 0
}

/// The wake register value the hardware settles on after `v` is written:
/// the children-asleep bit cannot be written and follows the processor-sleep
/// request, which the model completes instantly.
pub open spec fn waker_settled(v: u32) -> u32 {
    if processor_sleep(v) {
        v | WAKER_CHILDREN_ASLEEP
    } else {
        v & !WAKER_CHILDREN_ASLEEP
    }
}

/// The mathematical state of a GICv3 distributor block.
pub struct GicdState {
    /// Distributor control register, with the write-pending flag always clear.
    pub ctlr: u32,
    /// Interrupt controller type register.
    pub typer: u32,
    /// Interrupt group registers.
    pub igroupr: Seq<u32>,
    /// The enable state behind the set-enable and clear-enable registers.
    pub enable: Seq<u32>,
    /// Interrupt priority registers, one byte per interrupt.
    pub ipriorityr: Seq<u8>,
    /// Interrupt configuration registers, two bits per interrupt.
    pub icfgr: Seq<u32>,
    /// Interrupt group modifier registers.
    pub igrpmodr: Seq<u32>,
}

/// Model of the GICv3 distributor register block (offsets from the block
/// base are given on each accessor).
#[derive(Debug, Eq, PartialEq)]
pub struct Gicd {
    ctlr: u32,
    typer: u32,
    igroupr: Vec<u32>,
    enable: Vec<u32>,
    ipriorityr: Vec<u8>,
    icfgr: Vec<u32>,
    igrpmodr: Vec<u32>,
}

impl View for Gicd {
    type V = GicdState;

    closed spec fn view(&self) -> GicdState {
        GicdState {
            ctlr: self.ctlr,
            typer: self.typer,
            igroupr: self.igroupr@,
            enable: self.enable@,
            ipriorityr: self.ipriorityr@,
            icfgr: self.icfgr@,
            igrpmodr: self.igrpmodr@,
        }
    }
}

impl Gicd {
    /// Whether the block is well formed: the register arrays have their
    /// architectural lengths, and the write-pending status flag, which only
    /// the hardware drives and whose writes the model completes instantly,
    /// reads clear.
    pub open spec fn wf(self) -> bool {
        &&& self@.igroupr.len() == 32
        &&& self@.enable.len() == 32
        &&& self@.ipriorityr.len() == 1024
        &&& self@.icfgr.len() == 64
        &&& self@.igrpmodr.len() == 32
        &&& self@.ctlr & GICD_CTLR_RWP == 0
    }

    /// Returns a zeroed distributor block whose type register reads `typer`,
    /// the state a fake block starts from.
    pub fn new(typer: Typer) -> (r: Self)
        ensures
            r.wf(),
            r@.typer == typer.0,
            r@.ctlr == 0,
            forall|i: int| 0 <= i < 32 ==> r@.igroupr[i] == 0,
            forall|i: int| 0 <= i < 32 ==> r@.enable[i] == 0,
            forall|i: int| 0 <= i < 1024 ==> r@.ipriorityr[i] == 0,
            forall|i: int| 0 <= i < 64 ==> r@.icfgr[i] == 0,
            forall|i: int| 0 <= i < 32 ==> r@.igrpmodr[i] == 0,
    {
        let gicd = Gicd {
            ctlr: 0,
            typer: typer.0,
            igroupr: zeroed_words(32),
            enable: zeroed_words(32),
            ipriorityr: zeroed_bytes(1024),
            icfgr: zeroed_words(64),
            igrpmodr: zeroed_words(32),
        };
        assert(0u32 & GICD_CTLR_RWP == 0) by (bit_vector);
        gicd
    }

    /// Reads the distributor control register (offset 0x0, read-write).
    pub fn read_ctlr(&self) -> (r: GicdCtlr)
        ensures
            r.bits == self@.ctlr,
    {
        GicdCtlr { bits: self.ctlr }
    }

    /// Writes the distributor control register (offset 0x0, read-write).
    /// The write-pending flag is a read-only status bit; the model completes
    /// the write instantly, so the flag stays clear.
    pub fn write_ctlr(&mut self, v: GicdCtlr)
        ensures
            final(self)@ == (GicdState { ctlr: v.bits & !GICD_CTLR_RWP, ..old(self)@ }),
            old(self).wf() ==> final(self).wf(),
    {
        proof {
            let b = v.bits;
            assert((b & !GICD_CTLR_RWP) & GICD_CTLR_RWP == 0) by (bit_vector);
        }
        self.ctlr = v.bits & !GICD_CTLR_RWP;
    }

    /// Reads the interrupt controller type register (offset 0x4, read-only).
    pub fn read_typer(&self) -> (r: Typer)
        ensures
            r.0 == self@.typer,
    {
        Typer(self.typer)
    }

    /// Reads interrupt group register `i` (offset 0x80 + 4*i, read-write).
    pub fn read_igroupr(&self, i: usize) -> (r: u32)
        requires
            self.wf(),
            i < 32,
        ensures
            r == self@.igroupr[i as int],
    {
        self.igroupr[i]
    }

    /// Writes interrupt group register `i` (offset 0x80 + 4*i, read-write).
    pub fn write_igroupr(&mut self, i: usize, v: u32)
        requires
            old(self).wf(),
            i < 32,
        ensures
            final(self).wf(),
            final(self)@ == (GicdState {
                igroupr: old(self)@.igroupr.update(i as int, v),
                ..old(self)@
            }),
    {
        self.igroupr[i] = v;
    }

    /// Reads set-enable register `i` (offset 0x100 + 4*i, read-write): the
    /// current enable state of lines 32*i .. 32*i+32.
    pub fn read_isenabler(&self, i: usize) -> (r: u32)
        requires
            self.wf(),
            i < 32,
        ensures
            r == self@.enable[i as int],
    {
        self.enable[i]
    }

    /// Writes set-enable register `i` (offset 0x100 + 4*i): each one-bit
    /// latches the corresponding line, zero bits are untouched.
    pub fn write_isenabler(&mut self, i: usize, v: u32)
        requires
            old(self).wf(),
            i < 32,
        ensures
            final(self).wf(),
            final(self)@ == (GicdState {
                enable: old(self)@.enable.update(
                    i as int,
                    old(self)@.enable[i as int] | v,
                ),
                ..old(self)@
            }),
    {
        let w = self.enable[i] | v;
        self.enable[i] = w;
    }

    /// Writes clear-enable register `i` (offset 0x180 + 4*i): each one-bit
    /// releases the corresponding line, zero bits are untouched.
    pub fn write_icenabler(&mut self, i: usize, v: u32)
        requires
            old(self).wf(),
            i < 32,
        ensures
            final(self).wf(),
            final(self)@ == (GicdState {
                enable: old(self)@.enable.update(
                    i as int,
                    old(self)@.enable[i as int] & !v,
                ),
                ..old(self)@
            }),
    {
        let w = self.enable[i] & !v;
        self.enable[i] = w;
    }

    /// Reads the priority byte of interrupt `i` (offset 0x400 + i, read-write).
    pub fn read_ipriorityr(&self, i: usize) -> (r: u8)
        requires
            self.wf(),
            i < 1024,
        ensures
            r == self@.ipriorityr[i as int],
    {
        self.ipriorityr[i]
    }

    /// Writes the priority byte of interrupt `i` (offset 0x400 + i, read-write).
    pub fn write_ipriorityr(&mut self, i: usize, v: u8)
        requires
            old(self).wf(),
            i < 1024,
        ensures
            final(self).wf(),
            final(self)@ == (GicdState {
                ipriorityr: old(self)@.ipriorityr.update(i as int, v),
                ..old(self)@
            }),
    {
        self.ipriorityr[i] = v;
    }

    /// Reads configuration register `i` (offset 0xc00 + 4*i, read-write).
    pub fn read_icfgr(&self, i: usize) -> (r: u32)
        requires
            self.wf(),
            i < 64,
        ensures
            r == self@.icfgr[i as int],
    {
        self.icfgr[i]
    }

    /// Writes configuration register `i` (offset 0xc00 + 4*i, read-write).
    pub fn write_icfgr(&mut self, i: usize, v: u32)
        requires
            old(self).wf(),
            i < 64,
        ensures
            final(self).wf(),
            final(self)@ == (GicdState {
                icfgr: old(self)@.icfgr.update(i as int, v),
                ..old(self)@
            }),
    {
        self.icfgr[i] = v;
    }

    /// Reads interrupt group modifier register `i` (offset 0xd00 + 4*i,
    /// read-write).
    pub fn read_igrpmodr(&self, i: usize) -> (r: u32)
        requires
            self.wf(),
            i < 32,
        ensures
            r == self@.igrpmodr[i as int],
    {
        self.igrpmodr[i]
    }

    /// Writes interrupt group modifier register `i` (offset 0xd00 + 4*i,
    /// read-write).
    pub fn write_igrpmodr(&mut self, i: usize, v: u32)
        requires
            old(self).wf(),
            i < 32,
        ensures
            final(self).wf(),
            final(self)@ == (GicdState {
                igrpmodr: old(self)@.igrpmodr.update(i as int, v),
                ..old(self)@
            }),
    {
        self.igrpmodr[i] = v;
    }
}

/// The mathematical state of a redistributor block.
pub struct GicrState {
    /// Redistributor control register, with the write-pending flag always clear.
    pub ctlr: u32,
    /// Implementer identification register.
    pub iidr: u32,
    /// Redistributor type register.
    pub typer: u64,
    /// Redistributor wake register.
    pub waker: u32,
}

/// Model of a GIC redistributor register block (offsets from the block base
/// are given on each accessor).
#[derive(Debug, Eq, PartialEq)]
pub struct Gicr {
    ctlr: u32,
    iidr: u32,
    typer: u64,
    waker: u32,
}

impl View for Gicr {
    type V = GicrState;

    closed spec fn view(&self) -> GicrState {
        GicrState { ctlr: self.ctlr, iidr: self.iidr, typer: self.typer, waker: self.waker }
    }
}

impl Gicr {
    /// Whether the block is well formed: the write-pending status flag reads
    /// clear, and the wake handshake is settled, the children-asleep bit
    /// agreeing with the processor-sleep request.
    pub open spec fn wf(self) -> bool {
        &&& self@.ctlr & GICR_CTLR_RWP == 0
        &&& children_asleep(self@.waker) == processor_sleep(self@.waker)
    }

    /// Returns a redistributor block in its reset state: zeroed but for the
    /// wake register, which starts asleep with the handshake settled.
    pub fn new(iidr: GicrIidr, typer: GicrTyper) -> (r: Self)
        ensures
            r.wf(),
            r@.ctlr == 0,
            r@.iidr == iidr.0,
            r@.typer == typer.0,
            r@.waker == WAKER_CHILDREN_ASLEEP | WAKER_PROCESSOR_SLEEP,
            children_asleep(r@.waker),
    {
        proof {
            assert(0u32 & GICR_CTLR_RWP == 0) by (bit_vector);
            assert(children_asleep(WAKER_CHILDREN_ASLEEP | WAKER_PROCESSOR_SLEEP)
                && processor_sleep(WAKER_CHILDREN_ASLEEP | WAKER_PROCESSOR_SLEEP)) by {
                assert((0x4u32 | 0x2u32) & 0x4u32 != 0 && (0x4u32 | 0x2u32) & 0x2u32 != 0)
                    by (bit_vector);
            }
        }
        Gicr { ctlr: 0, iidr: iidr.0, typer: typer.0, waker: WAKER_CHILDREN_ASLEEP
            | WAKER_PROCESSOR_SLEEP }
    }

    /// Reads the redistributor control register (offset 0x0, read-write).
    pub fn read_ctlr(&self) -> (r: GicrCtlr)
        ensures
            r.bits == self@.ctlr,
    {
        GicrCtlr { bits: self.ctlr }
    }

    /// Reads the implementer identification register (offset 0x4, read-only).
    pub fn read_iidr(&self) -> (r: GicrIidr)
        ensures
            r.0 == self@.iidr,
    {
        GicrIidr(self.iidr)
    }

    /// Reads the redistributor type register (offset 0x8, read-only).
    pub fn read_typer(&self) -> (r: GicrTyper)
        ensures
            r.0 == self@.typer,
    {
        GicrTyper(self.typer)
    }

    /// Reads the redistributor wake register (offset 0x14, read-write).
    pub fn read_waker(&self) -> (r: Waker)
        ensures
            r.bits == self@.waker,
    {
        Waker { bits: self.waker }
    }

    /// Writes the redistributor wake register (offset 0x14, read-write).
    /// The children-asleep bit is read-only and follows the processor-sleep
    /// request; the model completes the hardware's side instantly.
    pub fn write_waker(&mut self, v: Waker)
        ensures
            final(self)@ == (GicrState { waker: waker_settled(v.bits), ..old(self)@ }),
            old(self).wf() ==> final(self).wf(),
            children_asleep(final(self)@.waker) == processor_sleep(v.bits),
            processor_sleep(final(self)@.waker) == processor_sleep(v.bits),
    {
        proof {
            let b = v.bits;
            assert((b | 0x4u32) & 0x4u32 != 0 && (b & !0x4u32) & 0x4u32 == 0 && ((b | 0x4u32)
                & 0x2u32 != 0) == (b & 0x2u32 != 0) && ((b & !0x4u32) & 0x2u32 != 0) == (b
                & 0x2u32 != 0)) by (bit_vector);
        }
        if v.bits & WAKER_PROCESSOR_SLEEP != 0 {
            self.waker = v.bits | WAKER_CHILDREN_ASLEEP;
        } else {
            self.waker = v.bits & !WAKER_CHILDREN_ASLEEP;
        }
    }
}

/// The mathematical state of a redistributor SGI and PPI frame.
pub struct SgiState {
    /// Interrupt group register 0.
    pub igroupr0: u32,
    /// The enable state behind set-enable and clear-enable register 0.
    pub enable0: u32,
    /// Interrupt priority registers, one byte per private interrupt.
    pub ipriorityr: Seq<u8>,
    /// SGI and PPI configuration registers, two bits per interrupt.
    pub icfgr: Seq<u32>,
    /// Interrupt group modifier register 0.
    pub igrpmodr0: u32,
}

/// Model of a GIC redistributor SGI and PPI register frame (offsets from the
/// frame base are given on each accessor).
#[derive(Debug, Eq, PartialEq)]
pub struct Sgi {
    igroupr0: u32,
    enable0: u32,
    ipriorityr: Vec<u8>,
    icfgr: Vec<u32>,
    igrpmodr0: u32,
}

impl View for Sgi {
    type V = SgiState;

    closed spec fn view(&self) -> SgiState {
        SgiState {
            igroupr0: self.igroupr0,
            enable0: self.enable0,
            ipriorityr: self.ipriorityr@,
            icfgr: self.icfgr@,
            igrpmodr0: self.igrpmodr0,
        }
    }
}

impl Sgi {
    /// Whether the frame is well formed: the register arrays have their
    /// architectural lengths.
    pub open spec fn wf(self) -> bool {
        &&& self@.ipriorityr.len() == 32
        &&& self@.icfgr.len() == 6
    }

    /// Returns a zeroed SGI and PPI frame, the state a fake frame starts from.
    pub fn new() -> (r: Self)
        ensures
            r.wf(),
            r@.igroupr0 == 0,
            r@.enable0 == 0,
            forall|i: int| 0 <= i < 32 ==> r@.ipriorityr[i] == 0,
            forall|i: int| 0 <= i < 6 ==> r@.icfgr[i] == 0,
            r@.igrpmodr0 == 0,
    {
        Sgi {
            igroupr0: 0,
            enable0: 0,
            ipriorityr: zeroed_bytes(32),
            icfgr: zeroed_words(6),
            igrpmodr0: 0,
        }
    }

    /// Reads interrupt group register 0 (offset 0x80, read-write).
    pub fn read_igroupr0(&self) -> (r: u32)
        ensures
            r == self@.igroupr0,
    {
        self.igroupr0
    }

    /// Writes interrupt group register 0 (offset 0x80, read-write).
    pub fn write_igroupr0(&mut self, v: u32)
        ensures
            final(self)@ == (SgiState { igroupr0: v, ..old(self)@ }),
            final(self).wf() == old(self).wf(),
    {
        self.igroupr0 = v;
    }

    /// Reads set-enable register 0 (offset 0x100, read-write): the current
    /// enable state of the 32 private lines.
    pub fn read_isenabler0(&self) -> (r: u32)
        ensures
            r == self@.enable0,
    {
        self.enable0
    }

    /// Writes set-enable register 0 (offset 0x100): each one-bit latches the
    /// corresponding line, zero bits are untouched.
    pub fn write_isenabler0(&mut self, v: u32)
        ensures
            final(self)@ == (SgiState { enable0: old(self)@.enable0 | v, ..old(self)@ }),
            final(self).wf() == old(self).wf(),
    {
        self.enable0 = self.enable0 | v;
    }

    /// Writes clear-enable register 0 (offset 0x180): each one-bit releases
    /// the corresponding line, zero bits are untouched.
    pub fn write_icenabler0(&mut self, v: u32)
        ensures
            final(self)@ == (SgiState { enable0: old(self)@.enable0 & !v, ..old(self)@ }),
            final(self).wf() == old(self).wf(),
    {
        self.enable0 = self.enable0 & !v;
    }

    /// Reads the priority byte of private interrupt `i` (offset 0x400 + i,
    /// read-write).
    pub fn read_ipriorityr(&self, i: usize) -> (r: u8)
        requires
            self.wf(),
            i < 32,
        ensures
            r == self@.ipriorityr[i as int],
    {
        self.ipriorityr[i]
    }

    /// Writes the priority byte of private interrupt `i` (offset 0x400 + i,
    /// read-write).
    pub fn write_ipriorityr(&mut self, i: usize, v: u8)
        requires
            old(self).wf(),
            i < 32,
        ensures
            final(self).wf(),
            final(self)@ == (SgiState {
                ipriorityr: old(self)@.ipriorityr.update(i as int, v),
                ..old(self)@
            }),
    {
        self.ipriorityr[i] = v;
    }

    /// Reads configuration register `i` (offset 0xc00 + 4*i, read-write).
    pub fn read_icfgr(&self, i: usize) -> (r: u32)
        requires
            self.wf(),
            i < 6,
        ensures
            r == self@.icfgr[i as int],
    {
        self.icfgr[i]
    }

    /// Writes configuration register `i` (offset 0xc00 + 4*i, read-write).
    pub fn write_icfgr(&mut self, i: usize, v: u32)
        requires
            old(self).wf(),
            i < 6,
        ensures
            final(self).wf(),
            final(self)@ == (SgiState {
                icfgr: old(self)@.icfgr.update(i as int, v),
                ..old(self)@
            }),
    {
        self.icfgr[i] = v;
    }

    /// Reads interrupt group modifier register 0 (offset 0xd00, read-write).
    pub fn read_igrpmodr0(&self) -> (r: u32)
        ensures
            r == self@.igrpmodr0,
    {
        self.igrpmodr0
    }

    /// Writes interrupt group modifier register 0 (offset 0xd00, read-write).
    pub fn write_igrpmodr0(&mut self, v: u32)
        ensures
            final(self)@ == (SgiState { igrpmodr0: v, ..old(self)@ }),
            final(self).wf() == old(self).wf(),
    {
        self.igrpmodr0 = v;
    }
}

/// One redistributor window: the redistributor block followed by its SGI and
/// PPI frame, 64 KiB each.
#[derive(Debug, Eq, PartialEq)]
pub struct GicrSgi {
    /// The redistributor register block.
    pub gicr: Gicr,
    /// The SGI and PPI register frame.
    pub sgi: Sgi,
}

impl GicrSgi {
    /// Whether both halves of the window are well formed.
    pub open spec fn wf(self) -> bool {
        self.gicr.wf() && self.sgi.wf()
    }

    /// Returns a redistributor window in its reset state.
    pub fn new(iidr: GicrIidr, typer: GicrTyper) -> (r: Self)
        ensures
            r.wf(),
            r.gicr@.ctlr == 0,
            r.gicr@.iidr == iidr.0,
            r.gicr@.typer == typer.0,
            r.gicr@.waker == WAKER_CHILDREN_ASLEEP | WAKER_PROCESSOR_SLEEP,
            children_asleep(r.gicr@.waker),
            r.sgi@.igroupr0 == 0,
            r.sgi@.enable0 == 0,
            forall|i: int| 0 <= i < 32 ==> r.sgi@.ipriorityr[i] == 0,
            forall|i: int| 0 <= i < 6 ==> r.sgi@.icfgr[i] == 0,
            r.sgi@.igrpmodr0 == 0,
    {
        GicrSgi { gicr: Gicr::new(iidr, typer), sgi: Sgi::new() }
    }
}

/// Returns a vector of `n` zeroed 32-bit registers.
fn zeroed_words(n: usize) -> (r: Vec<u32>)
    ensures
        r@.len() == n,
        forall|i: int| 0 <= i < n ==> r@[i] == 0,
{
    let mut words: Vec<u32> = Vec::new();
    let mut k: usize = 0;
    while k < n
        invariant
            k <= n,
            words@.len() == k,
            forall|i: int| 0 <= i < k ==> words@[i] == 0,
        decreases n - k,
    {
        words.push(0);
        k = k + 1;
    }
    words
}

/// Returns a vector of `n` zeroed byte registers.
fn zeroed_bytes(n: usize) -> (r: Vec<u8>)
    ensures
        r@.len() == n,
        forall|i: int| 0 <= i < n ==> r@[i] == 0,
{
    let mut bytes: Vec<u8> = Vec::new();
    let mut k: usize = 0;
    while k < n
        invariant
            k <= n,
            bytes@.len() == k,
            forall|i: int| 0 <= i < k ==> bytes@[i] == 0,
        decreases n - k,
    {
        bytes.push(0);
        k = k + 1;
    }
    bytes
}

} // verus!
