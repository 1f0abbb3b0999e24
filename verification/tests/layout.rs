use plexi_core::layout::{
    format_audit_response, format_namespaces, layout_audit_response, layout_namespaces,
    ListLabels, ReportLabels,
};
use plexi_core::namespaces::{Namespace, NamespaceInfo, NamespaceStatus, Namespaces};
use plexi_core::status::VerificationStatus;
use plexi_core::{Ciphersuite, Epoch, PlexiError, SignatureResponse};

fn response(timestamp: u64) -> SignatureResponse {
    SignatureResponse::new(
        &Ciphersuite::BincodeEd25519,
        &Ciphersuite::ProtobufEd25519,
        "ns".to_string(),
        timestamp,
        &Epoch::from(300),
        vec![0xab, 0x12],
        vec![0x05, 0xff],
        None,
        None,
    )
}

fn labels() -> ReportLabels {
    ReportLabels {
        name: "A".to_string(),
        ciphersuite: "B".to_string(),
        epoch: "C".to_string(),
        digest: "D".to_string(),
        signature: "E".to_string(),
        signature_verification: "F".to_string(),
        proof_verification: "G".to_string(),
    }
}

#[test]
fn layout_of_the_full_report() {
    let text = layout_audit_response(
        &response(0),
        &VerificationStatus::Success,
        &VerificationStatus::Failed("no root".to_string()),
        "then",
        &labels(),
    );
    assert_eq!(
        text,
        "Namespace\n  A: ns\n  B: ed25519(bincode)\n\nSignature (then)\n  C: 300\n  D: ab12\n  E: 05ff\n  F: success\n  G: failed - no root"
    );
}

#[test]
fn short_audit_response_is_the_surfaced_status() {
    let r = response(0);
    let success = VerificationStatus::Success;
    let disabled = VerificationStatus::Disabled;
    let failed = VerificationStatus::Failed("x".to_string());
    assert_eq!(format_audit_response(false, &r, &success, &disabled).unwrap(), "success");
    assert_eq!(format_audit_response(false, &r, &failed, &success).unwrap(), "failed - x");
    assert_eq!(format_audit_response(false, &r, &success, &failed).unwrap(), "failed - x");
    assert_eq!(format_audit_response(false, &r, &disabled, &disabled).unwrap(), "-");
    // The short form does not look at the time.
    assert_eq!(
        format_audit_response(false, &response(u64::MAX), &success, &success).unwrap(),
        "success"
    );
}

#[test]
fn full_audit_response_in_plain_type() {
    colored::control::set_override(false);
    let text = format_audit_response(
        true,
        &response(1700000000123),
        &VerificationStatus::Success,
        &VerificationStatus::Disabled,
    )
    .unwrap();
    let expected = [
        "Namespace",
        "  Name                  : ns",
        "  Ciphersuite           : ed25519(bincode)",
        "",
        "Signature (2023-11-14T22:13:20Z)",
        "  Epoch height          : 300",
        "  Epoch digest          : ab12",
        "  Signature             : 05ff",
        "  Signature verification: success",
        "  Proof verification    : -",
    ]
    .join("\n");
    assert_eq!(text, expected);
    let at_zero = format_audit_response(
        true,
        &response(999),
        &VerificationStatus::Success,
        &VerificationStatus::Success,
    )
    .unwrap();
    assert!(at_zero.contains("Signature (1970-01-01T00:00:00Z)"));
}

#[test]
fn full_audit_response_of_a_time_out_of_range() {
    match format_audit_response(
        true,
        &response(u64::MAX),
        &VerificationStatus::Success,
        &VerificationStatus::Success,
    ) {
        Err(PlexiError::BadParameter(name)) => assert_eq!(name, "timestamp"),
        _ => panic!("a time beyond the calendar was taken"),
    }
}

fn namespaces() -> Namespaces {
    let mut list = Namespaces::new();
    list.push(NamespaceInfo::new(
        &Namespace::new(
            "first".to_string(),
            Some("https://logs.example/first".to_string()),
            Some("1/aa".to_string()),
            None,
            Some(Ciphersuite::ProtobufEd25519),
        ),
        NamespaceStatus::Online,
    ));
    list.push(NamespaceInfo::new(
        &Namespace::new(
            "second".to_string(),
            None,
            None,
            Some(Ciphersuite::Unknown(7)),
            None,
        ),
        NamespaceStatus::Initialization,
    ));
    list
}

fn list_labels() -> ListLabels {
    ListLabels {
        status: "S".to_string(),
        ciphersuite: "C".to_string(),
        root: "R".to_string(),
        directory: "D".to_string(),
    }
}

#[test]
fn listing_of_names() {
    assert_eq!(layout_namespaces(&namespaces(), false, &list_labels()), "first\nsecond");
    assert_eq!(format_namespaces(&namespaces(), false), "first\nsecond");
    assert_eq!(format_namespaces(&Namespaces::new(), false), "");
    assert_eq!(format_namespaces(&Namespaces::new(), true), "");
}

#[test]
fn listing_in_full() {
    assert_eq!(
        layout_namespaces(&namespaces(), true, &list_labels()),
        "first\n  S: Online\n  C: ed25519(protobuf)\n  R: 1/aa\n  D: https://logs.example/first\n\n\nsecond\n  S: Initialization\n  C: unknown 7\n  R: -\n  D: -\n\n"
    );
    colored::control::set_override(false);
    let expected = [
        "first",
        "  Status     : Online",
        "  Ciphersuite: ed25519(protobuf)",
        "  Root       : 1/aa",
        "  Directory  : https://logs.example/first",
        "\n",
    ]
    .join("\n");
    let mut one = Namespaces::new();
    one.push(namespaces().get(0).clone());
    assert_eq!(format_namespaces(&one, true), expected);
}
