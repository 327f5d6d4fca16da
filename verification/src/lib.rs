//! Driver model for the Arm Generic Interrupt Controller, version 2, 3 or 4.
//!
//! The crate models each register block of the controller as plain data with
//! the access modes the hardware defines, and verifies the driver operations
//! bit for bit against that model.

use vstd::prelude::*;

pub mod bitops;
pub mod gicv2;
pub mod gicv3;
pub mod sysreg;

verus! {

/// The trigger configuration for an interrupt.
#[derive(Copy, Clone, Debug, Eq, PartialEq, Structural)]
pub enum Trigger {
    /// The interrupt is edge triggered.
    Edge,
    /// The interrupt is level triggered.
    Level,
}

/// The ID of the first Software Generated Interrupt.
pub const SGI_START: u32 = 0;

/// The ID of the first Private Peripheral Interrupt.
pub const PPI_START: u32 = 16;

/// The ID of the first Shared Peripheral Interrupt.
pub const SPI_START: u32 = 32;

/// The first special interrupt ID.
pub const SPECIAL_START: u32 = 1020;

/// One more than the last special interrupt ID.
pub const SPECIAL_END: u32 = 1024;

/// The first extended Private Peripheral Interrupt.
pub const EPPI_START: u32 = 1056;

/// One more than the last extended Private Peripheral Interrupt.
pub const EPPI_END: u32 = 1120;

/// The first extended Shared Peripheral Interrupt.
pub const ESPI_START: u32 = 4096;

/// One more than the last extended Shared Peripheral Interrupt.
pub const ESPI_END: u32 = 5120;

/// The first Locality-specific Peripheral Interrupt.
pub const LPI_START: u32 = 8192;

/// The number of Software Generated Interrupts.
pub const SGI_COUNT: u32 = PPI_START - SGI_START;

/// The number of (non-extended) Private Peripheral Interrupts.
pub const PPI_COUNT: u32 = SPI_START - PPI_START;

/// The maximum number of SPIs which may be supported.
pub const MAX_SPI_COUNT: u32 = SPECIAL_START - SPI_START;

/// The maximum number of extended Private Peripheral Interrupts which may be supported.
pub const MAX_EPPI_COUNT: u32 = EPPI_END - EPPI_START;

/// The maximum number of extended Shared Peripheral Interrupts which may be supported.
pub const MAX_ESPI_COUNT: u32 = ESPI_END - ESPI_START;

/// The category an interrupt ID falls into, as laid down by the architecture.
#[derive(Copy, Clone, Debug, Eq, PartialEq, Structural)]
pub enum IntIdKind {
    /// A Software Generated Interrupt.
    Sgi,
    /// A Private Peripheral Interrupt.
    Ppi,
    /// A Shared Peripheral Interrupt.
    Spi,
    /// One of the four special interrupt IDs returned by the acknowledge operation.
    Special,
    /// A value in one of the reserved gaps between categories.
    Reserved,
    /// An extended Private Peripheral Interrupt.
    Eppi,
    /// An extended Shared Peripheral Interrupt.
    Espi,
    /// A Locality-specific Peripheral Interrupt.
    Lpi,
}

/// An interrupt ID.
#[derive(Copy, Clone, Debug, Eq, Ord, PartialEq, PartialOrd, Structural)]
pub struct IntId(u32);

impl IntId {
    /// The raw value of this interrupt ID.
    pub closed spec fn spec_raw(self) -> u32 {
        self.0
    }

    /// Returns the raw value of this interrupt ID. The conversion is total and
    /// lossless in both directions.
    #[verifier::when_used_as_spec(spec_raw)]
    pub fn raw(self) -> (r: u32)
        ensures
            r == self.spec_raw(),
    {
        self.0
    }

    /// Returns the interrupt ID with the given raw value. The conversion is
    /// total and lossless in both directions.
    pub fn from_raw(raw: u32) -> (r: Self)
        ensures
            r.raw() == raw,
    {
        IntId(raw)
    }

    /// Special interrupt ID returned when running at EL3 and the interrupt should be handled at
    /// S-EL2 or S-EL1.
    pub fn special_secure() -> (r: Self)
        ensures
            r.raw() == SPECIAL_START,
    {
        IntId(1020)
    }

    /// Special interrupt ID returned when running at EL3 and the interrupt should be handled at
    /// (non-secure) EL2 or EL1.
    pub fn special_nonsecure() -> (r: Self)
        ensures
            r.raw() == SPECIAL_START + 1,
    {
        IntId(1021)
    }

    /// Special interrupt ID returned when the interrupt is a non-maskable interrupt.
    pub fn special_nmi() -> (r: Self)
        ensures
            r.raw() == SPECIAL_START + 2,
    {
        IntId(1022)
    }

    /// Special interrupt ID returned when there is no pending interrupt of sufficient priority for
    /// the current security state and interrupt group.
    pub fn special_none() -> (r: Self)
        ensures
            r.raw() == SPECIAL_END - 1,
    {
        IntId(1023)
    }

    /// Returns the interrupt ID for the given Software Generated Interrupt,
    /// or `None` if the zero-based index is outside the category's width.
    pub fn sgi(sgi: u32) -> (r: Option<Self>)
        ensures
            r is Some <==> sgi < SGI_COUNT,
            r matches Some(id) ==> id.raw() == SGI_START + sgi,
    {
        if sgi < SGI_COUNT {
            Some(IntId(SGI_START + sgi))
        } else {
            None
        }
    }

    /// Returns the interrupt ID for the given Private Peripheral Interrupt,
    /// or `None` if the zero-based index is outside the category's width.
    pub fn ppi(ppi: u32) -> (r: Option<Self>)
        ensures
            r is Some <==> ppi < PPI_COUNT,
            r matches Some(id) ==> id.raw() == PPI_START + ppi,
    {
        if ppi < PPI_COUNT {
            Some(IntId(PPI_START + ppi))
        } else {
            None
        }
    }

    /// Returns the interrupt ID for the given Shared Peripheral Interrupt,
    /// or `None` if the zero-based index is outside the category's width.
    pub fn spi(spi: u32) -> (r: Option<Self>)
        ensures
            r is Some <==> spi < MAX_SPI_COUNT,
            r matches Some(id) ==> id.raw() == SPI_START + spi,
    {
        if spi < MAX_SPI_COUNT {
            Some(IntId(SPI_START + spi))
        } else {
            None
        }
    }

    /// Returns the interrupt ID for the given extended Private Peripheral Interrupt,
    /// or `None` if the zero-based index is outside the category's width.
    pub fn eppi(eppi: u32) -> (r: Option<Self>)
        ensures
            r is Some <==> eppi < MAX_EPPI_COUNT,
            r matches Some(id) ==> id.raw() == EPPI_START + eppi,
    {
        if eppi < MAX_EPPI_COUNT {
            Some(IntId(EPPI_START + eppi))
        } else {
            None
        }
    }

    /// Returns the interrupt ID for the given extended Shared Peripheral Interrupt,
    /// or `None` if the zero-based index is outside the category's width.
    pub fn espi(espi: u32) -> (r: Option<Self>)
        ensures
            r is Some <==> espi < MAX_ESPI_COUNT,
            r matches Some(id) ==> id.raw() == ESPI_START + espi,
    {
        if espi < MAX_ESPI_COUNT {
            Some(IntId(ESPI_START + espi))
        } else {
            None
        }
    }

    /// Returns the interrupt ID for the given Locality-specific Peripheral Interrupt,
    /// or `None` if the ID would not fit in 32 bits.
    pub fn lpi(lpi: u32) -> (r: Option<Self>)
        ensures
            r is Some <==> lpi <= u32::MAX - LPI_START,
            r matches Some(id) ==> id.raw() == LPI_START + lpi,
    {
        if lpi <= u32::MAX - LPI_START {
            Some(IntId(LPI_START + lpi))
        } else {
            None
        }
    }

    /// Whether this interrupt ID is for a Software Generated Interrupt.
    pub open spec fn spec_is_sgi(self) -> bool {
        self.raw() < PPI_START
    }

    /// Returns whether this interrupt ID is for a Software Generated Interrupt.
    #[verifier::when_used_as_spec(spec_is_sgi)]
    pub fn is_sgi(self) -> (r: bool)
        ensures
            r == self.spec_is_sgi(),
    {
        self.0 < PPI_START
    }

    /// Whether this interrupt ID is for a Private Peripheral Interrupt.
    pub open spec fn spec_is_ppi(self) -> bool {
        PPI_START <= self.raw() < SPI_START
    }

    /// Returns whether this interrupt ID is for a Private Peripheral Interrupt.
    #[verifier::when_used_as_spec(spec_is_ppi)]
    pub fn is_ppi(self) -> (r: bool)
        ensures
            r == self.spec_is_ppi(),
    {
        PPI_START <= self.0 && self.0 < SPI_START
    }

    /// Whether this interrupt ID is for an extended Private Peripheral Interrupt.
    pub open spec fn spec_is_eppi(self) -> bool {
        EPPI_START <= self.raw() < EPPI_END
    }

    /// Returns whether this interrupt ID is for an extended Private Peripheral Interrupt.
    #[verifier::when_used_as_spec(spec_is_eppi)]
    pub fn is_eppi(self) -> (r: bool)
        ensures
            r == self.spec_is_eppi(),
    {
        EPPI_START <= self.0 && self.0 < EPPI_END
    }

    /// Whether this interrupt ID is private to a core: an SGI, a PPI or an
    /// extended PPI.
    pub open spec fn spec_is_private(self) -> bool {
        self.spec_is_sgi() || self.spec_is_ppi() || self.spec_is_eppi()
    }

    /// Returns whether this interrupt ID is private to a core, i.e. it is an SGI, PPI or
    /// extended PPI.
    #[verifier::when_used_as_spec(spec_is_private)]
    pub fn is_private(self) -> (r: bool)
        ensures
            r == self.spec_is_private(),
    {
        self.is_sgi() || self.is_ppi() || self.is_eppi()
    }

    /// Whether this interrupt ID is for a Shared Peripheral Interrupt.
    pub open spec fn spec_is_spi(self) -> bool {
        SPI_START <= self.raw() < SPECIAL_START
    }

    /// Returns whether this interrupt ID is for a Shared Peripheral Interrupt.
    #[verifier::when_used_as_spec(spec_is_spi)]
    pub fn is_spi(self) -> (r: bool)
        ensures
            r == self.spec_is_spi(),
    {
        SPI_START <= self.0 && self.0 < SPECIAL_START
    }

    /// The category this interrupt ID falls into.
    pub open spec fn spec_kind(self) -> IntIdKind {
        if self.raw() < PPI_START {
            IntIdKind::Sgi
        } else if self.raw() < SPI_START {
            IntIdKind::Ppi
        } else if self.raw() < SPECIAL_START {
            IntIdKind::Spi
        } else if self.raw() < SPECIAL_END {
            IntIdKind::Special
        } else if self.raw() < EPPI_START {
            IntIdKind::Reserved
        } else if self.raw() < EPPI_END {
            IntIdKind::Eppi
        } else if self.raw() < ESPI_START {
            IntIdKind::Reserved
        } else if self.raw() < ESPI_END {
            IntIdKind::Espi
        } else if self.raw() < LPI_START {
            IntIdKind::Reserved
        } else {
            IntIdKind::Lpi
        }
    }

    /// Classifies this interrupt ID into its category, with `Reserved` for the
    /// gaps between categories.
    #[verifier::when_used_as_spec(spec_kind)]
    pub fn kind(self) -> (r: IntIdKind)
        ensures
            r == self.spec_kind(),
    {
        if self.0 < PPI_START {
            IntIdKind::Sgi
        } else if self.0 < SPI_START {
            IntIdKind::Ppi
        } else if self.0 < SPECIAL_START {
            IntIdKind::Spi
        } else if self.0 < SPECIAL_END {
            IntIdKind::Special
        } else if self.0 < EPPI_START {
            IntIdKind::Reserved
        } else if self.0 < EPPI_END {
            IntIdKind::Eppi
        } else if self.0 < ESPI_START {
            IntIdKind::Reserved
        } else if self.0 < ESPI_END {
            IntIdKind::Espi
        } else if self.0 < LPI_START {
            IntIdKind::Reserved
        } else {
            IntIdKind::Lpi
        }
    }

    /// The zero-based offset of this interrupt ID within its category; for the
    /// special and reserved ranges this is the raw value itself.
    pub open spec fn spec_kind_offset(self) -> u32 {
        match self.spec_kind() {
            IntIdKind::Sgi => (self.raw() - SGI_START) as u32,
            IntIdKind::Ppi => (self.raw() - PPI_START) as u32,
            IntIdKind::Spi => (self.raw() - SPI_START) as u32,
            IntIdKind::Special => self.raw(),
            IntIdKind::Reserved => self.raw(),
            IntIdKind::Eppi => (self.raw() - EPPI_START) as u32,
            IntIdKind::Espi => (self.raw() - ESPI_START) as u32,
            IntIdKind::Lpi => (self.raw() - LPI_START) as u32,
        }
    }

    /// Returns the zero-based offset of this interrupt ID within its category.
    #[verifier::when_used_as_spec(spec_kind_offset)]
    pub fn kind_offset(self) -> (r: u32)
        ensures
            r == self.spec_kind_offset(),
    {
        match self.kind() {
            IntIdKind::Sgi => self.0 - SGI_START,
            IntIdKind::Ppi => self.0 - PPI_START,
            IntIdKind::Spi => self.0 - SPI_START,
            IntIdKind::Special => self.0,
            IntIdKind::Reserved => self.0,
            IntIdKind::Eppi => self.0 - EPPI_START,
            IntIdKind::Espi => self.0 - ESPI_START,
            IntIdKind::Lpi => self.0 - LPI_START,
        }
    }

    /// Returns all interrupt IDs that are private to a core and always
    /// implemented, i.e. the SGIs and the PPIs, in ascending order.
    pub fn private() -> (r: Vec<IntId>)
        ensures
            r@.len() == SGI_COUNT + PPI_COUNT,
            forall|i: int| 0 <= i < r@.len() ==> (#[trigger] r@[i]).raw() == i,
    {
        let mut ids: Vec<IntId> = Vec::new();
        let mut n: u32 = 0;
        while n < SGI_COUNT + PPI_COUNT
            invariant
                n <= SGI_COUNT + PPI_COUNT,
                ids@.len() == n,
                forall|i: int| 0 <= i < ids@.len() ==> (#[trigger] ids@[i]).raw() == i,
            decreases SGI_COUNT + PPI_COUNT - n,
        {
            ids.push(IntId(n));
            n = n + 1;
        }
        ids
    }

    /// Renders this interrupt ID as its category name followed by the
    /// zero-based offset within the category, with the raw value for the
    /// special and reserved ranges.
    pub fn describe(self) -> (r: String)
        ensures
            r@ == spec_describe(self),
    {
        let mut out = String::new();
        match self.kind() {
            IntIdKind::Sgi => out.append("SGI "),
            IntIdKind::Ppi => out.append("PPI "),
            IntIdKind::Spi => out.append("SPI "),
            IntIdKind::Special => out.append("Special IntId "),
            IntIdKind::Reserved => out.append("Reserved IntId "),
            IntIdKind::Eppi => out.append("EPPI "),
            IntIdKind::Espi => out.append("ESPI "),
            IntIdKind::Lpi => out.append("LPI "),
        }
        push_decimal(self.kind_offset(), &mut out);
        out
    }

    /// Returns all SPI interrupt IDs that may be supported, in ascending order.
    pub fn spis() -> (r: Vec<IntId>)
        ensures
            r@.len() == MAX_SPI_COUNT,
            forall|i: int| 0 <= i < r@.len() ==> (#[trigger] r@[i]).raw() == SPI_START + i,
    {
        let mut ids: Vec<IntId> = Vec::new();
        let mut n: u32 = 0;
        while n < MAX_SPI_COUNT
            invariant
                n <= MAX_SPI_COUNT,
                ids@.len() == n,
                forall|i: int| 0 <= i < ids@.len() ==> (#[trigger] ids@[i]).raw() == SPI_START + i,
            decreases MAX_SPI_COUNT - n,
        {
            ids.push(IntId(SPI_START + n));
            n = n + 1;
        }
        ids
    }
}

/// The decimal digit `d` as a character.
pub open spec fn digit_char(d: nat) -> char {
    if d == 0 {
        '0'
    } else if d == 1 {
        '1'
    } else if d == 2 {
        '2'
    } else if d == 3 {
        '3'
    } else if d == 4 {
        '4'
    } else if d == 5 {
        '5'
    } else if d == 6 {
        '6'
    } else if d == 7 {
        '7'
    } else if d == 8 {
        '8'
    } else {
        '9'
    }
}

/// The decimal digits of `n`, most significant first, without leading
/// zeroes (a single zero for zero itself).
pub open spec fn spec_decimal(n: nat) -> Seq<char>
    decreases n,
{
    if n < 10 {
        seq![digit_char(n)]
    } else {
        spec_decimal(n / 10).push(digit_char(n % 10))
    }
}

/// The rendering of an interrupt ID: its category name, then its offset
/// within the category in decimal.
pub open spec fn spec_describe(id: IntId) -> Seq<char> {
    match id.spec_kind() {
        IntIdKind::Sgi => "SGI "@ + spec_decimal(id.spec_kind_offset() as nat),
        IntIdKind::Ppi => "PPI "@ + spec_decimal(id.spec_kind_offset() as nat),
        IntIdKind::Spi => "SPI "@ + spec_decimal(id.spec_kind_offset() as nat),
        IntIdKind::Special => "Special IntId "@ + spec_decimal(id.spec_kind_offset() as nat),
        IntIdKind::Reserved => "Reserved IntId "@ + spec_decimal(id.spec_kind_offset() as nat),
        IntIdKind::Eppi => "EPPI "@ + spec_decimal(id.spec_kind_offset() as nat),
        IntIdKind::Espi => "ESPI "@ + spec_decimal(id.spec_kind_offset() as nat),
        IntIdKind::Lpi => "LPI "@ + spec_decimal(id.spec_kind_offset() as nat),
    }
}

/// Returns the single-character string for the decimal digit `d`.
fn digit_str(d: u32) -> (s: &'static str)
    requires
        d < 10,
    ensures
        s@ == seq![digit_char(d as nat)],
{
    proof {
        reveal_strlit("0");
        reveal_strlit("1");
        reveal_strlit("2");
        reveal_strlit("3");
        reveal_strlit("4");
        reveal_strlit("5");
        reveal_strlit("6");
        reveal_strlit("7");
        reveal_strlit("8");
        reveal_strlit("9");
    }
    if d == 0 {
        let s = "0";
        proof {
            assert(s@ =~= seq![digit_char(d as nat)]);
        }
        s
    } else if d == 1 {
        let s = "1";
        proof {
            assert(s@ =~= seq![digit_char(d as nat)]);
        }
        s
    } else if d == 2 {
        let s = "2";
        proof {
            assert(s@ =~= seq![digit_char(d as nat)]);
        }
        s
    } else if d == 3 {
        let s = "3";
        proof {
            assert(s@ =~= seq![digit_char(d as nat)]);
        }
        s
    } else if d == 4 {
        let s = "4";
        proof {
            assert(s@ =~= seq![digit_char(d as nat)]);
        }
        s
    } else if d == 5 {
        let s = "5";
        proof {
            assert(s@ =~= seq![digit_char(d as nat)]);
        }
        s
    } else if d == 6 {
        let s = "6";
        proof {
            assert(s@ =~= seq![digit_char(d as nat)]);
        }
        s
    } else if d == 7 {
        let s = "7";
        proof {
            assert(s@ =~= seq![digit_char(d as nat)]);
        }
        s
    } else if d == 8 {
        let s = "8";
        proof {
            assert(s@ =~= seq![digit_char(d as nat)]);
        }
        s
    } else {
        let s = "9";
        proof {
            assert(s@ =~= seq![digit_char(d as nat)]);
        }
        s
    }
}

/// Appends the decimal digits of `n` to `out`.
fn push_decimal(n: u32, out: &mut String)
    ensures
        final(out)@ == old(out)@ + spec_decimal(n as nat),
    decreases n,
{
    if n >= 10 {
        push_decimal(n / 10, out);
    }
    let d = digit_str(n % 10);
    out.append(d);
    proof {
        if n >= 10 {
            assert(out@ =~= old(out)@ + spec_decimal(n as nat));
        } else {
            assert(out@ =~= old(out)@ + spec_decimal(n as nat));
        }
    }
}

} // verus!
