use plexi_core::wire::{push_le, push_varint};
use plexi_core::{Ciphersuite, Epoch, PlexiError, SignatureMessage, SignatureResponse};

fn message(suite: Ciphersuite, namespace: &str, timestamp: u64, epoch: u64, digest: &[u8]) -> SignatureMessage {
    SignatureMessage::new(
        &suite,
        namespace.to_string(),
        timestamp,
        &Epoch::from(epoch),
        digest.to_vec(),
    )
    .unwrap()
}

fn prost_bytes(code: u32, namespace: &str, timestamp: u64, epoch: u64, digest: &[u8]) -> Vec<u8> {
    let mut inner: Vec<u8> = Vec::new();
    prost::encoding::uint64::encode(1, &epoch, &mut inner);
    let mut buf: Vec<u8> = Vec::new();
    prost::encoding::uint32::encode(1, &code, &mut buf);
    prost::encoding::string::encode(2, &namespace.to_string(), &mut buf);
    prost::encoding::uint64::encode(3, &timestamp, &mut buf);
    prost::encoding::bytes::encode(4, &inner, &mut buf);
    prost::encoding::bytes::encode(5, &digest.to_vec(), &mut buf);
    buf
}

fn bincode_bytes(code: u32, namespace: &str, timestamp: u64, epoch: u64, digest: &[u8]) -> Vec<u8> {
    bincode::encode_to_vec(
        (code, namespace.to_string(), timestamp, epoch, digest.to_vec()),
        bincode::config::legacy(),
    )
    .unwrap()
}

#[test]
fn message_new_keeps_its_parts() {
    let m = message(Ciphersuite::ProtobufEd25519, "n", 2, 3, &[4]);
    assert_eq!(*m.ciphersuite(), Ciphersuite::ProtobufEd25519);
    assert_eq!(m.namespace(), "n");
    assert_eq!(m.timestamp(), 2);
    assert_eq!(m.epoch().number(), 3);
    assert_eq!(m.digest(), vec![4]);
}

#[test]
fn message_new_refuses_unsignable_ciphersuites() {
    for suite in [
        Ciphersuite::Unknown(0),
        Ciphersuite::Unknown(1),
        Ciphersuite::Unknown(2),
        Ciphersuite::Unknown(3),
    ] {
        match SignatureMessage::new(&suite, "n".to_string(), 2, &Epoch::from(3), vec![4]) {
            Err(PlexiError::BadParameter(name)) => assert_eq!(name, "version"),
            _ => panic!("an unsignable ciphersuite was taken"),
        }
    }
}

#[test]
fn message_protobuf_bytes() {
    let m = message(Ciphersuite::ProtobufEd25519, "n", 2, 3, &[4]);
    assert_eq!(
        hex::encode(m.to_vec().unwrap()),
        "080112016e1802220208032a0104"
    );
    let m = message(
        Ciphersuite::ProtobufEd25519,
        "cloudflare.log",
        1700000000000,
        300,
        &(0..32u8).collect::<Vec<u8>>(),
    );
    assert_eq!(
        hex::encode(m.to_vec().unwrap()),
        "0801120e636c6f7564666c6172652e6c6f671880d095ffbc31220308ac022a20000102030405060708090a0b0c0d0e0f101112131415161718191a1b1c1d1e1f"
    );
}

#[test]
fn message_protobuf_keeps_fields_that_are_zero_or_empty() {
    let m = message(Ciphersuite::ProtobufEd25519, "hé", 0, 0, &[]);
    assert_eq!(
        hex::encode(m.to_vec().unwrap()),
        "0801120368c3a91800220208002a00"
    );
}

#[test]
fn message_legacy_bytes() {
    let m = message(Ciphersuite::BincodeEd25519, "n", 2, 3, &[4]);
    assert_eq!(
        hex::encode(m.to_vec().unwrap()),
        "0200000001000000000000006e02000000000000000300000000000000010000000000000004"
    );
    let m = message(
        Ciphersuite::BincodeEd25519,
        "cloudflare.log",
        1700000000000,
        300,
        &(0..32u8).collect::<Vec<u8>>(),
    );
    assert_eq!(
        hex::encode(m.to_vec().unwrap()),
        "020000000e00000000000000636c6f7564666c6172652e6c6f670068e5cf8b0100002c010000000000002000000000000000000102030405060708090a0b0c0d0e0f101112131415161718191a1b1c1d1e1f"
    );
}

#[test]
fn message_protobuf_agrees_with_prost() {
    let long_name = "x".repeat(300);
    let cases: Vec<(&str, u64, u64, Vec<u8>)> = vec![
        ("", 0, 0, vec![]),
        ("n", 2, 3, vec![4]),
        ("ns", 127, 128, vec![0; 127]),
        ("ns", 128, 16383, vec![0xff; 128]),
        ("日本語", 16384, u64::MAX, vec![1, 2, 3]),
        (long_name.as_str(), u64::MAX, 1, (0..=255u8).collect()),
    ];
    for (namespace, timestamp, epoch, digest) in cases {
        let m = message(Ciphersuite::ProtobufEd25519, namespace, timestamp, epoch, &digest);
        assert_eq!(
            m.to_vec().unwrap(),
            prost_bytes(1, namespace, timestamp, epoch, &digest)
        );
        assert_eq!(m.to_vec_proto().unwrap(), m.to_vec().unwrap());
    }
}

#[test]
fn message_legacy_agrees_with_bincode() {
    let long_name = "x".repeat(300);
    let cases: Vec<(&str, u64, u64, Vec<u8>)> = vec![
        ("", 0, 0, vec![]),
        ("n", 2, 3, vec![4]),
        ("日本語", 1 << 40, u64::MAX, vec![1, 2, 3]),
        (long_name.as_str(), u64::MAX, 1, (0..=255u8).collect()),
    ];
    for (namespace, timestamp, epoch, digest) in cases {
        let m = message(Ciphersuite::BincodeEd25519, namespace, timestamp, epoch, &digest);
        assert_eq!(
            m.to_vec().unwrap(),
            bincode_bytes(2, namespace, timestamp, epoch, &digest)
        );
        assert_eq!(m.to_vec_bincode().unwrap(), m.to_vec().unwrap());
    }
}

#[test]
fn message_encoding_is_deterministic() {
    for suite in [Ciphersuite::ProtobufEd25519, Ciphersuite::BincodeEd25519] {
        let a = message(suite, "ns", 10, 20, &[1, 2, 3]);
        let b = message(suite, "ns", 10, 20, &[1, 2, 3]);
        assert_eq!(a.to_vec().unwrap(), b.to_vec().unwrap());
        assert_eq!(a.to_vec().unwrap(), a.to_vec().unwrap());
    }
}

#[test]
fn message_encodings_differ_by_ciphersuite_and_by_field() {
    let p = message(Ciphersuite::ProtobufEd25519, "ns", 10, 20, &[1, 2, 3]);
    let b = message(Ciphersuite::BincodeEd25519, "ns", 10, 20, &[1, 2, 3]);
    assert_ne!(p.to_vec().unwrap(), b.to_vec().unwrap());
    let other = message(Ciphersuite::ProtobufEd25519, "ns", 10, 21, &[1, 2, 3]);
    assert_ne!(p.to_vec().unwrap(), other.to_vec().unwrap());
}

#[test]
fn message_of_unknown_ciphersuite_has_no_encoding() {
    let response = SignatureResponse::new(
        &Ciphersuite::ProtobufEd25519,
        &Ciphersuite::Unknown(9),
        "n".to_string(),
        2,
        &Epoch::from(3),
        vec![4],
        vec![5],
        None,
        None,
    );
    let m = SignatureMessage::from(&response);
    assert_eq!(*m.ciphersuite(), Ciphersuite::Unknown(9));
    assert!(matches!(m.to_vec(), Err(PlexiError::Serialization)));
    let m = SignatureMessage::from(response);
    assert!(matches!(m.to_vec(), Err(PlexiError::Serialization)));
}

#[test]
fn message_to_string_is_the_root_text() {
    let m = message(Ciphersuite::ProtobufEd25519, "n", 2, 5, &[0xab, 0x12]);
    assert_eq!(m.to_string(), "5/ab12");
}

#[test]
fn wire_varint_bytes() {
    let cases: Vec<(u64, Vec<u8>)> = vec![
        (0, vec![0]),
        (1, vec![1]),
        (127, vec![0x7f]),
        (128, vec![0x80, 0x01]),
        (300, vec![0xac, 0x02]),
        (16383, vec![0xff, 0x7f]),
        (16384, vec![0x80, 0x80, 0x01]),
        (
            u64::MAX,
            vec![0xff, 0xff, 0xff, 0xff, 0xff, 0xff, 0xff, 0xff, 0xff, 0x01],
        ),
    ];
    for (n, expected) in cases {
        let mut buf = vec![9u8];
        push_varint(&mut buf, n);
        assert_eq!(buf[0], 9);
        assert_eq!(&buf[1..], expected.as_slice());
        let mut theirs: Vec<u8> = Vec::new();
        prost::encoding::encode_varint(n, &mut theirs);
        assert_eq!(theirs, expected);
    }
}

#[test]
fn wire_fixed_width_bytes() {
    let mut buf = vec![9u8];
    push_le(&mut buf, 0x0102030405060708, 8);
    assert_eq!(buf, vec![9, 8, 7, 6, 5, 4, 3, 2, 1]);
    let mut buf = Vec::new();
    push_le(&mut buf, 0x0102030405060708, 4);
    assert_eq!(buf, 0x05060708u32.to_le_bytes().to_vec());
    let mut buf = Vec::new();
    push_le(&mut buf, 7, 0);
    assert!(buf.is_empty());
}
