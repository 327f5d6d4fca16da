//! Tests for the interrupt ID model.

use arm_gic::{IntId, IntIdKind, LPI_START};

#[test]
fn constructor_bounds() {
    // For each category, the last offset inside the width succeeds and the
    // first offset outside it fails.
    assert!(IntId::sgi(15).is_some());
    assert!(IntId::sgi(16).is_none());
    assert!(IntId::ppi(15).is_some());
    assert!(IntId::ppi(16).is_none());
    assert!(IntId::spi(987).is_some());
    assert!(IntId::spi(988).is_none());
    assert!(IntId::eppi(63).is_some());
    assert!(IntId::eppi(64).is_none());
    assert!(IntId::espi(1023).is_some());
    assert!(IntId::espi(1024).is_none());
    assert!(IntId::lpi(u32::MAX - LPI_START).is_some());
    assert!(IntId::lpi(u32::MAX - LPI_START + 1).is_none());
}

#[test]
fn constructor_values() {
    assert_eq!(IntId::sgi(3).unwrap().raw(), 3);
    assert_eq!(IntId::ppi(0).unwrap().raw(), 16);
    assert_eq!(IntId::spi(0).unwrap().raw(), 32);
    assert_eq!(IntId::eppi(0).unwrap().raw(), 1056);
    assert_eq!(IntId::espi(0).unwrap().raw(), 4096);
    assert_eq!(IntId::lpi(0).unwrap().raw(), LPI_START);
}

#[test]
fn special_values() {
    assert_eq!(IntId::special_secure().raw(), 1020);
    assert_eq!(IntId::special_nonsecure().raw(), 1021);
    assert_eq!(IntId::special_nmi().raw(), 1022);
    assert_eq!(IntId::special_none().raw(), 1023);
}

#[test]
fn raw_round_trip() {
    for raw in [0u32, 15, 16, 31, 32, 1019, 1020, 1023, 1024, 1055, 1056, 4096, 8192, u32::MAX] {
        assert_eq!(IntId::from_raw(raw).raw(), raw);
    }
}

#[test]
fn range_predicates() {
    let sgi = IntId::sgi(0).unwrap();
    let ppi = IntId::ppi(0).unwrap();
    let spi = IntId::spi(0).unwrap();
    let eppi = IntId::eppi(0).unwrap();
    let espi = IntId::espi(0).unwrap();
    assert!(sgi.is_sgi() && sgi.is_private() && !sgi.is_ppi() && !sgi.is_spi());
    assert!(ppi.is_ppi() && ppi.is_private() && !ppi.is_sgi() && !ppi.is_spi());
    assert!(spi.is_spi() && !spi.is_private() && !spi.is_sgi() && !spi.is_ppi());
    assert!(eppi.is_eppi() && eppi.is_private());
    assert!(!espi.is_private() && !espi.is_spi());
}

#[test]
fn ordering_follows_raw_value() {
    assert!(IntId::sgi(0).unwrap() < IntId::sgi(1).unwrap());
    assert!(IntId::ppi(0).unwrap() < IntId::spi(0).unwrap());
    assert_eq!(IntId::spi(5).unwrap(), IntId::from_raw(37));
}

#[test]
fn classification() {
    assert_eq!(IntId::from_raw(0).kind(), IntIdKind::Sgi);
    assert_eq!(IntId::from_raw(15).kind(), IntIdKind::Sgi);
    assert_eq!(IntId::from_raw(16).kind(), IntIdKind::Ppi);
    assert_eq!(IntId::from_raw(32).kind(), IntIdKind::Spi);
    assert_eq!(IntId::from_raw(1019).kind(), IntIdKind::Spi);
    assert_eq!(IntId::from_raw(1020).kind(), IntIdKind::Special);
    assert_eq!(IntId::from_raw(1023).kind(), IntIdKind::Special);
    assert_eq!(IntId::from_raw(1024).kind(), IntIdKind::Reserved);
    assert_eq!(IntId::from_raw(1056).kind(), IntIdKind::Eppi);
    assert_eq!(IntId::from_raw(1119).kind(), IntIdKind::Eppi);
    assert_eq!(IntId::from_raw(1120).kind(), IntIdKind::Reserved);
    assert_eq!(IntId::from_raw(4096).kind(), IntIdKind::Espi);
    assert_eq!(IntId::from_raw(5119).kind(), IntIdKind::Espi);
    assert_eq!(IntId::from_raw(5120).kind(), IntIdKind::Reserved);
    assert_eq!(IntId::from_raw(8192).kind(), IntIdKind::Lpi);
    assert_eq!(IntId::from_raw(u32::MAX).kind(), IntIdKind::Lpi);
}

#[test]
fn describe_renders_category_and_offset() {
    assert_eq!(IntId::sgi(3).unwrap().describe(), "SGI 3");
    assert_eq!(IntId::ppi(7).unwrap().describe(), "PPI 7");
    assert_eq!(IntId::spi(987).unwrap().describe(), "SPI 987");
    assert_eq!(IntId::from_raw(1021).describe(), "Special IntId 1021");
    assert_eq!(IntId::from_raw(1030).describe(), "Reserved IntId 1030");
    assert_eq!(IntId::eppi(10).unwrap().describe(), "EPPI 10");
    assert_eq!(IntId::espi(0).unwrap().describe(), "ESPI 0");
    assert_eq!(IntId::lpi(100).unwrap().describe(), "LPI 100");
    assert_eq!(IntId::from_raw(0).describe(), "SGI 0");
}

#[test]
fn private_and_spi_listings() {
    let private = IntId::private();
    assert_eq!(private.len(), 32);
    for (i, id) in private.iter().enumerate() {
        assert_eq!(id.raw(), i as u32);
        assert!(id.is_private());
    }
    let spis = IntId::spis();
    assert_eq!(spis.len(), 988);
    assert_eq!(spis[0].raw(), 32);
    assert_eq!(spis[987].raw(), 1019);
    for id in &spis {
        assert!(id.is_spi());
    }
}
