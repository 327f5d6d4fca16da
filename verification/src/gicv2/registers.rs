//! Model of the GICv2 register blocks.
//!
//! Each block is held as plain data and reached only through methods that
//! match the access mode the architecture gives the register: read-only,
//! write-only or read-write. The set-enable and clear-enable registers share
//! one underlying enable state, as on hardware: a write of a one-bit to the
//! set register latches the line, a write of a one-bit to the clear register
//! releases it, and reads of either return the current state. Lines beyond
//! the number the type register declares are reserved: they read as zero and
//! writes to them are ignored.

use vstd::prelude::*;

verus! {

/// Group 0 enable bit of the distributor control register.
pub const GICD_CTLR_ENABLE_GRP0: u32 = 1;

/// Group 1 enable bit of the distributor control register.
pub const GICD_CTLR_ENABLE_GRP1: u32 = 0x2;

/// A value of the GICv2 distributor control register.
#[derive(Copy, Clone, Debug, Eq, PartialEq, Structural)]
pub struct GicdCtlr {
    /// The raw bits of the register value.
    pub bits: u32,
}

impl GicdCtlr {
    /// Returns the value with no flag set.
    pub fn empty() -> (r: Self)
        ensures
            r.bits == 0,
    {
        GicdCtlr { bits: 0 }
    }

    /// Returns the value with exactly the group 1 enable flag set.
    pub fn enable_grp1() -> (r: Self)
        ensures
            r.bits == GICD_CTLR_ENABLE_GRP1,
    {
        GicdCtlr { bits: GICD_CTLR_ENABLE_GRP1 }
    }

    /// Returns whether every flag of `flags` is set in `self`.
    pub fn contains(self, flags: Self) -> (r: bool)
        ensures
            r == (self.bits & flags.bits == flags.bits),
    {
        self.bits & flags.bits == flags.bits
    }
}

/// GICv2 type register value.
#[derive(Copy, Clone, Debug, Eq, PartialEq, Structural)]
pub struct Typer(pub u32);

impl Typer {
    /// Returns the maximum number of lockable SPIs supported, from 0 to 31.
    pub fn lockable_spi_count(self) -> (r: u32)
        ensures
            r == (self.0 >> 11) & 0b11111,
    {
        (self.0 >> 11) & 0b11111
    }

    /// Returns whether the GIC supports two security states.
    pub fn has_security_extension(self) -> (r: bool)
        ensures
            r == (self.0 & (1u32 << 10) != 0),
    {
        self.0 & (1 << 10) != 0
    }

    /// Returns the number of implemented CPU interfaces.
    pub fn cpu_count(self) -> (r: u32)
        ensures
            r == ((self.0 >> 5) & 0b111) + 1,
    {
        let t = self.0;
        assert((t >> 5) & 0b111 <= 0b111) by (bit_vector);
        ((t >> 5) & 0b111) + 1
    }

    /// Returns the maximum number of interrupts supported.
    pub fn num_irqs(&self) -> (r: u32)
        ensures
            r == ((self.0 & 0b11111) + 1) * 32,
    {
        let t = self.0;
        assert(t & 0b11111 <= 0b11111) by (bit_vector);
        ((t & 0b11111) + 1) * 32
    }
}

/// Whether interrupt line `line` is implemented on a distributor whose type
/// register holds `typer`: the type register declares the number of lines in
/// blocks of 32.
pub open spec fn line_implemented(typer: u32, line: u32) -> bool {
    line < ((typer & 0b11111) + 1) * 32
}

/// The writable mask of enable register `i` on a distributor whose type
/// register holds `typer`: all ones while the register's 32 lines are
/// implemented, else zero (reserved lines are read-as-zero, write-ignored).
pub open spec fn enable_mask(typer: u32, i: int) -> u32 {
    if i <= (typer & 0b11111) {
        0xffff_ffffu32
    } else {
        0u32
    }
}

/// The mathematical state of a GICv2 distributor block.
pub struct GicdState {
    /// Distributor control register.
    pub ctlr: u32,
    /// Interrupt controller type register.
    pub typer: u32,
    /// Interrupt group registers.
    pub igroupr: Seq<u32>,
    /// The enable state behind the set-enable and clear-enable registers.
    pub enable: Seq<u32>,
    /// Interrupt priority registers, four 8-bit lanes each.
    pub ipriorityr: Seq<u32>,
    /// Interrupt configuration registers, two bits per interrupt.
    pub icfgr: Seq<u32>,
    /// The value last written to the software generated interrupt register.
    pub sgir: u32,
}

/// Model of the GICv2 distributor register block (offsets from the block base
/// are given on each accessor).
#[derive(Debug, Eq, PartialEq)]
pub struct Gicd {
    ctlr: u32,
    typer: u32,
    igroupr: Vec<u32>,
    enable: Vec<u32>,
    ipriorityr: Vec<u32>,
    icfgr: Vec<u32>,
    sgir: u32,
}

impl View for Gicd {
    type V = GicdState;

    closed spec fn view(&self) -> GicdState {
        GicdState {
            ctlr: self.ctlr,
            typer: self.typer,
            igroupr: self.igroupr@,
            enable: self.enable@,
            ipriorityr: self.ipriorityr@,
            icfgr: self.icfgr@,
            sgir: self.sgir,
        }
    }
}

impl Gicd {
    /// Whether the block is well formed: the register arrays have their
    /// architectural lengths, and no reserved enable line is latched.
    pub open spec fn wf(self) -> bool {
        &&& self@.igroupr.len() == 32
        &&& self@.enable.len() == 32
        &&& self@.ipriorityr.len() == 256
        &&& self@.icfgr.len() == 64
        &&& forall|i: int|
            0 <= i < 32 ==> #[trigger] self@.enable[i] & !enable_mask(self@.typer, i) == 0
    }

    /// Returns a zeroed distributor block whose type register reads `typer`,
    /// the state a fake block starts from.
    pub fn new(typer: Typer) -> (r: Self)
        ensures
            r.wf(),
            r@.typer == typer.0,
            r@.ctlr == 0,
            r@.sgir == 0,
            forall|i: int| 0 <= i < 32 ==> r@.igroupr[i] == 0,
            forall|i: int| 0 <= i < 32 ==> r@.enable[i] == 0,
            forall|i: int| 0 <= i < 256 ==> r@.ipriorityr[i] == 0,
            forall|i: int| 0 <= i < 64 ==> r@.icfgr[i] == 0,
    {
        let gicd = Gicd {
            ctlr: 0,
            typer: typer.0,
            igroupr: zeroed_words(32),
            enable: zeroed_words(32),
            ipriorityr: zeroed_words(256),
            icfgr: zeroed_words(64),
            sgir: 0,
        };
        assert forall|i: int| 0 <= i < 32 implies #[trigger] gicd@.enable[i] & !enable_mask(
            gicd@.typer,
            i,
        ) == 0 by {
            assert(0u32 & !0u32 == 0) by (bit_vector);
            assert(0u32 & !0xffff_ffffu32 == 0) by (bit_vector);
        }
        gicd
    }

    /// Reads the distributor control register (offset 0x0, read-write).
    pub fn read_ctlr(&self) -> (r: GicdCtlr)
        ensures
            r.bits == self@.ctlr,
    {
        GicdCtlr { bits: self.ctlr }
    }

    /// Writes the distributor control register (offset 0x0, read-write).
    pub fn write_ctlr(&mut self, v: GicdCtlr)
        ensures
            final(self)@ == (GicdState { ctlr: v.bits, ..old(self)@ }),
            final(self).wf() == old(self).wf(),
    {
        self.ctlr = v.bits;
    }

    /// Reads the interrupt controller type register (offset 0x4, read-only).
    pub fn read_typer(&self) -> (r: Typer)
        ensures
            r.0 == self@.typer,
    {
        Typer(self.typer)
    }

    /// Reads interrupt group register `i` (offset 0x80 + 4*i, read-write).
    pub fn read_igroupr(&self, i: usize) -> (r: u32)
        requires
            self.wf(),
            i < 32,
        ensures
            r == self@.igroupr[i as int],
    {
        self.igroupr[i]
    }

    /// Writes interrupt group register `i` (offset 0x80 + 4*i, read-write).
    pub fn write_igroupr(&mut self, i: usize, v: u32)
        requires
            old(self).wf(),
            i < 32,
        ensures
            final(self).wf(),
            final(self)@ == (GicdState {
                igroupr: old(self)@.igroupr.update(i as int, v),
                ..old(self)@
            }),
    {
        self.igroupr[i] = v;
    }

    /// Reads set-enable register `i` (offset 0x100 + 4*i, read-write): the
    /// current enable state of lines 32*i .. 32*i+32.
    pub fn read_isenabler(&self, i: usize) -> (r: u32)
        requires
            self.wf(),
            i < 32,
        ensures
            r == self@.enable[i as int],
    {
        self.enable[i]
    }

    /// Writes set-enable register `i` (offset 0x100 + 4*i): each one-bit
    /// latches the corresponding implemented line, zero bits and reserved
    /// lines are untouched.
    pub fn write_isenabler(&mut self, i: usize, v: u32)
        requires
            old(self).wf(),
            i < 32,
        ensures
            final(self).wf(),
            final(self)@ == (GicdState {
                enable: old(self)@.enable.update(
                    i as int,
                    old(self)@.enable[i as int] | (v & enable_mask(old(self)@.typer, i as int)),
                ),
                ..old(self)@
            }),
    {
        let mask: u32 = if (i as u32) <= self.typer & 0b11111 {
            0xffff_ffff
        } else {
            0
        };
        assert(mask == enable_mask(self@.typer, i as int));
        let w = self.enable[i] | (v & mask);
        proof {
            let t = self@.typer;
            let e = self@.enable[i as int];
            assert(e & !enable_mask(t, i as int) == 0 ==> (e | (v & enable_mask(t, i as int)))
                & !enable_mask(t, i as int) == 0) by (bit_vector);
        }
        self.enable[i] = w;
    }

    /// Writes clear-enable register `i` (offset 0x180 + 4*i): each one-bit
    /// releases the corresponding line, zero bits are untouched.
    pub fn write_icenabler(&mut self, i: usize, v: u32)
        requires
            old(self).wf(),
            i < 32,
        ensures
            final(self).wf(),
            final(self)@ == (GicdState {
                enable: old(self)@.enable.update(i as int, old(self)@.enable[i as int] & !v),
                ..old(self)@
            }),
    {
        let w = self.enable[i] & !v;
        proof {
            let t = self@.typer;
            let e = self@.enable[i as int];
            let m = enable_mask(t, i as int);
            assert(e & !m == 0 ==> (e & !v) & !m == 0) by (bit_vector);
        }
        self.enable[i] = w;
    }

    /// Reads priority register `i` (offset 0x400 + 4*i, read-write).
    pub fn read_ipriorityr(&self, i: usize) -> (r: u32)
        requires
            self.wf(),
            i < 256,
        ensures
            r == self@.ipriorityr[i as int],
    {
        self.ipriorityr[i]
    }

    /// Writes priority register `i` (offset 0x400 + 4*i, read-write).
    pub fn write_ipriorityr(&mut self, i: usize, v: u32)
        requires
            old(self).wf(),
            i < 256,
        ensures
            final(self).wf(),
            final(self)@ == (GicdState {
                ipriorityr: old(self)@.ipriorityr.update(i as int, v),
                ..old(self)@
            }),
    {
        self.ipriorityr[i] = v;
    }

    /// Reads configuration register `i` (offset 0xc00 + 4*i, read-write).
    pub fn read_icfgr(&self, i: usize) -> (r: u32)
        requires
            self.wf(),
            i < 64,
        ensures
            r == self@.icfgr[i as int],
    {
        self.icfgr[i]
    }

    /// Writes configuration register `i` (offset 0xc00 + 4*i, read-write).
    pub fn write_icfgr(&mut self, i: usize, v: u32)
        requires
            old(self).wf(),
            i < 64,
        ensures
            final(self).wf(),
            final(self)@ == (GicdState {
                icfgr: old(self)@.icfgr.update(i as int, v),
                ..old(self)@
            }),
    {
        self.icfgr[i] = v;
    }

    /// Writes the software generated interrupt register (offset 0xf00,
    /// write-only).
    pub fn write_sgir(&mut self, v: u32)
        ensures
            final(self)@ == (GicdState { sgir: v, ..old(self)@ }),
            final(self).wf() == old(self).wf(),
    {
        self.sgir = v;
    }

    /// Returns the value last written to the write-only software generated
    /// interrupt register; the model keeps it so a test can observe it.
    pub fn sgir(&self) -> (r: u32)
        ensures
            r == self@.sgir,
    {
        self.sgir
    }
}

/// The mathematical state of a GICv2 CPU interface block.
pub struct GiccState {
    /// CPU interface control register.
    pub ctlr: u32,
    /// Interrupt priority mask register.
    pub pmr: u32,
    /// Aliased interrupt acknowledge register.
    pub aiar: u32,
    /// The value last written to the aliased end-of-interrupt register.
    pub aeoir: u32,
}

/// Model of the GICv2 CPU interface register block.
#[derive(Debug, Eq, PartialEq)]
pub struct Gicc {
    ctlr: u32,
    pmr: u32,
    aiar: u32,
    aeoir: u32,
}

impl View for Gicc {
    type V = GiccState;

    closed spec fn view(&self) -> GiccState {
        GiccState { ctlr: self.ctlr, pmr: self.pmr, aiar: self.aiar, aeoir: self.aeoir }
    }
}

impl Gicc {
    /// Returns a zeroed CPU interface block whose aliased acknowledge
    /// register reads `aiar`: the hardware drives that register, a fake block
    /// is told what it should present.
    pub fn new(aiar: u32) -> (r: Self)
        ensures
            r@ == (GiccState { ctlr: 0, pmr: 0, aiar: aiar, aeoir: 0 }),
    {
        Gicc { ctlr: 0, pmr: 0, aiar, aeoir: 0 }
    }

    /// Reads the CPU interface control register (offset 0x0, read-write).
    pub fn read_ctlr(&self) -> (r: u32)
        ensures
            r == self@.ctlr,
    {
        self.ctlr
    }

    /// Writes the CPU interface control register (offset 0x0, read-write).
    pub fn write_ctlr(&mut self, v: u32)
        ensures
            final(self)@ == (GiccState { ctlr: v, ..old(self)@ }),
    {
        self.ctlr = v;
    }

    /// Reads the priority mask register (offset 0x4, read-write).
    pub fn read_pmr(&self) -> (r: u32)
        ensures
            r == self@.pmr,
    {
        self.pmr
    }

    /// Writes the priority mask register (offset 0x4, read-write).
    pub fn write_pmr(&mut self, v: u32)
        ensures
            final(self)@ == (GiccState { pmr: v, ..old(self)@ }),
    {
        self.pmr = v;
    }

    /// Reads the aliased interrupt acknowledge register (offset 0x20,
    /// read-only). On hardware the read acknowledges the interrupt it
    /// returns; the model presents a fixed value.
    pub fn read_aiar(&self) -> (r: u32)
        ensures
            r == self@.aiar,
    {
        self.aiar
    }

    /// Writes the aliased end-of-interrupt register (offset 0x24,
    /// write-only).
    pub fn write_aeoir(&mut self, v: u32)
        ensures
            final(self)@ == (GiccState { aeoir: v, ..old(self)@ }),
    {
        self.aeoir = v;
    }

    /// Returns the value last written to the write-only aliased
    /// end-of-interrupt register; the model keeps it so a test can observe
    /// it.
    pub fn aeoir(&self) -> (r: u32)
        ensures
            r == self@.aeoir,
    {
        self.aeoir
    }
}

/// Returns a vector of `n` zeroed 32-bit registers.
fn zeroed_words(n: usize) -> (r: Vec<u32>)
    ensures
        r@.len() == n,
        forall|i: int| 0 <= i < n ==> r@[i] == 0,
{
    let mut words: Vec<u32> = Vec::new();
    let mut k: usize = 0;
    while k < n
        invariant
            k <= n,
            words@.len() == k,
            forall|i: int| 0 <= i < k ==> words@[i] == 0,
        decreases n - k,
    {
        words.push(0);
        k = k + 1;
    }
    words
}

} // verus!
