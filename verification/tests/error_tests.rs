use netframe::error::{Error, Layer, Unsupported, Violation};
use netframe::text::push_number;

#[test]
fn numbers_in_decimal() {
    let cases: [usize; 12] = [0, 1, 9, 10, 11, 99, 100, 101, 999, 1000, 65_535, usize::MAX];
    for n in cases {
        let mut text = String::new();
        push_number(&mut text, n);
        assert_eq!(text, format!("{}", n));
    }
}

#[test]
fn too_short_messages() {
    assert_eq!(
        Error::TooShort { layer: Layer::MacAddress, needed: 6, got: 5 }.message(),
        "MacAddress needs 6 bytes, got 5"
    );
    assert_eq!(
        Error::TooShort { layer: Layer::Ethernet, needed: 18, got: 0 }.message(),
        "Ethernet data too small, expected at least 18, got 0"
    );
    assert_eq!(
        Error::TooShort { layer: Layer::Ipv4, needed: 20, got: 19 }.message(),
        "Ipv4 data too small, expected at least 20, got 19"
    );
    assert_eq!(
        Error::TooShort { layer: Layer::Tcp, needed: 20, got: 2 }.message(),
        "Tcp data too small, expected at least 20, got 2"
    );
    assert_eq!(
        Error::TooShort { layer: Layer::BitField, needed: 1024, got: 100 }.message(),
        "Bit range data too small, expected at least 1024, got 100"
    );
}

#[test]
fn structural_violation_messages() {
    assert_eq!(
        Error::StructuralViolation(Violation::VersionMismatch { found: 6 }).message(),
        "Version must be 4"
    );
    assert_eq!(
        Error::StructuralViolation(Violation::HeaderLengthOutOfRange { found: 4 }).message(),
        "Header length too small"
    );
    assert_eq!(
        Error::StructuralViolation(Violation::HeaderLengthOutOfRange { found: 21 }).message(),
        "Header length too big"
    );
    assert_eq!(
        Error::StructuralViolation(Violation::ReservedBitSet).message(),
        "Reserved flag is not 0"
    );
    assert_eq!(
        Error::StructuralViolation(Violation::HeaderTooLarge { limit: 20, declared: 60 }).message(),
        "Tcp header size too big, expected at most 20, got 60"
    );
}

#[test]
fn unimplemented_messages() {
    assert_eq!(
        Error::Unimplemented(Unsupported::EthernetPayload).message(),
        "Ethernet payload is not implemented"
    );
    assert_eq!(Error::Unimplemented(Unsupported::Udp).message(), "UDP not implemented");
    assert_eq!(Error::Unimplemented(Unsupported::UnknownProtocol).message(), "Unknown protocol");
    assert_eq!(Error::Unimplemented(Unsupported::TcpHook).message(), "Not implemented");
}

#[test]
fn invalid_range_message() {
    assert_eq!(Error::InvalidRange { width: 65 }.message(), "Invalid range, must be 1-64, got 65");
}

#[test]
fn layer_names() {
    assert_eq!(Layer::MacAddress.name(), "MacAddress");
    assert_eq!(Layer::Ethernet.name(), "Ethernet");
    assert_eq!(Layer::Ipv4.name(), "Ipv4");
    assert_eq!(Layer::Tcp.name(), "Tcp");
    assert_eq!(Layer::BitField.name(), "Bit range");
}

#[test]
fn the_three_kinds_of_failure_are_told_apart() {
    let short = Error::TooShort { layer: Layer::Tcp, needed: 20, got: 2 };
    let broken = Error::StructuralViolation(Violation::ReservedBitSet);
    let unsupported = Error::Unimplemented(Unsupported::Udp);
    assert!(matches!(short, Error::TooShort { .. }));
    assert!(matches!(broken, Error::StructuralViolation(_)));
    assert!(matches!(unsupported, Error::Unimplemented(_)));
    assert_ne!(short, broken);
    assert_ne!(broken, unsupported);
    assert_ne!(short, unsupported);
}
