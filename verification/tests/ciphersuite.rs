use plexi_core::ciphersuite::format_ciphersuite;
use plexi_core::Ciphersuite;

#[test]
fn ciphersuite_code_round_trip() {
    for code in [0u32, 1, 2, 3, 255, 65536, u32::MAX] {
        let suite = Ciphersuite::from(code);
        assert_eq!(u32::from(suite), code);
    }
    for suite in [
        Ciphersuite::ProtobufEd25519,
        Ciphersuite::BincodeEd25519,
        Ciphersuite::Unknown(0),
        Ciphersuite::Unknown(7),
    ] {
        assert_eq!(Ciphersuite::from(u32::from(suite)), suite);
    }
}

#[test]
fn ciphersuite_known_codes() {
    assert_eq!(u32::from(Ciphersuite::ProtobufEd25519), 1);
    assert_eq!(u32::from(Ciphersuite::BincodeEd25519), 2);
    assert_eq!(Ciphersuite::from(1), Ciphersuite::ProtobufEd25519);
    assert_eq!(Ciphersuite::from(2), Ciphersuite::BincodeEd25519);
    assert_eq!(Ciphersuite::from(3), Ciphersuite::Unknown(3));
    assert_eq!(Ciphersuite::from(0), Ciphersuite::Unknown(0));
}

#[test]
fn ciphersuite_unknown_with_known_code_is_not_the_known_one() {
    assert_ne!(Ciphersuite::Unknown(1), Ciphersuite::ProtobufEd25519);
    assert_eq!(u32::from(Ciphersuite::Unknown(1)), 1);
    assert!(!Ciphersuite::Unknown(1).signable());
    assert!(Ciphersuite::ProtobufEd25519.signable());
    assert!(Ciphersuite::BincodeEd25519.signable());
}

#[test]
fn ciphersuite_parse_reads_decimal_codes() {
    assert_eq!(Ciphersuite::parse("1"), Some(Ciphersuite::ProtobufEd25519));
    assert_eq!(Ciphersuite::parse("2"), Some(Ciphersuite::BincodeEd25519));
    assert_eq!(Ciphersuite::parse("+2"), Some(Ciphersuite::BincodeEd25519));
    assert_eq!(Ciphersuite::parse("0017"), Some(Ciphersuite::Unknown(17)));
    assert_eq!(
        Ciphersuite::parse("4294967295"),
        Some(Ciphersuite::Unknown(u32::MAX))
    );
    assert_eq!(Ciphersuite::parse("4294967296"), None);
    assert_eq!(Ciphersuite::parse(""), None);
    assert_eq!(Ciphersuite::parse("-1"), None);
    assert_eq!(Ciphersuite::parse("0x1"), None);
    assert_eq!(Ciphersuite::parse(" 1"), None);
}

#[test]
fn ciphersuite_parse_agrees_with_std() {
    for text in ["0", "1", "2", "+3", "007", "x", "", "+", "-", "99999999999", "1 ", "１"] {
        let expected = text.parse::<u32>().ok().map(Ciphersuite::from);
        assert_eq!(Ciphersuite::parse(text), expected, "{:?}", text);
    }
}

#[test]
fn ciphersuite_names() {
    assert_eq!(Ciphersuite::ProtobufEd25519.to_string(), "0x0001");
    assert_eq!(Ciphersuite::BincodeEd25519.to_string(), "0x0002");
    assert_eq!(Ciphersuite::Unknown(9).to_string(), "unknown");
}

#[test]
fn format_ciphersuite_names() {
    assert_eq!(
        format_ciphersuite(&Ciphersuite::BincodeEd25519),
        "ed25519(bincode)"
    );
    assert_eq!(
        format_ciphersuite(&Ciphersuite::ProtobufEd25519),
        "ed25519(protobuf)"
    );
    assert_eq!(format_ciphersuite(&Ciphersuite::Unknown(42)), "unknown 42");
    assert_eq!(format_ciphersuite(&Ciphersuite::Unknown(0)), "unknown 0");
}
