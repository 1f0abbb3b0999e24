use plexi_core::crypto::{ed25519_public_key_to_key_id, public_key, sign, verify, SignatureFault};
use plexi_core::response::VerifyError;
use plexi_core::{Ciphersuite, Epoch, SignatureMessage, SignatureRequest, SignatureResponse};

const SECRET: &str = "9d61b19deffd5a60ba844af492ec2cc44449c5697b326919703bac031cae7f60";
const PUBLIC: &str = "d75a980182b10ab7d54bfed3c964073a0ee172f3daa62325af021a68f707511a";
const OTHER_PUBLIC: &str = "3d4017c3e843895a92b70aa74d1b7ebc9c982ccf2ec4968cc0cd55f12af4660c";

fn bytes(text: &str) -> Vec<u8> {
    hex::decode(text).unwrap()
}

fn signed(suite: Ciphersuite, namespace: &str, timestamp: u64, epoch: u64, digest: &[u8]) -> SignatureResponse {
    let message = SignatureMessage::new(
        &suite,
        namespace.to_string(),
        timestamp,
        &Epoch::from(epoch),
        digest.to_vec(),
    )
    .unwrap();
    let signature = sign(&bytes(SECRET), &message.to_vec().unwrap()).unwrap();
    SignatureResponse::new(
        &suite,
        &suite,
        namespace.to_string(),
        timestamp,
        &Epoch::from(epoch),
        digest.to_vec(),
        signature,
        Some(0x1a),
        None,
    )
}

#[test]
fn test_vector() {
    // signing key, verifying key, key id, namespace, timestamp, epoch, digest, signature, ciphersuite
    let vectors: Vec<(&str, &str, u8, &str, u64, u64, Vec<u8>, &str, Ciphersuite)> = vec![
        (
            SECRET,
            PUBLIC,
            0x1a,
            "n",
            2,
            3,
            vec![4],
            "e3bef0407e373f04f312c8b9c8668f8aa7c396324c66954382984500c8e2e65aeb7012526da085bd361701f859ffef1a1f01f1db6c459545ac48a77d3cc67b09",
            Ciphersuite::ProtobufEd25519,
        ),
        (
            SECRET,
            PUBLIC,
            0x1a,
            "n",
            2,
            3,
            vec![4],
            "ea6a4e622cbcad75b6dcb1594773ea66dfac09a92be1fcaf76969a0eb00743a4d1ee7cec8581ed43ff42b46def4168126302842f6445dd2bd38b2322fcf57c06",
            Ciphersuite::BincodeEd25519,
        ),
        (
            SECRET,
            PUBLIC,
            0x1a,
            "cloudflare.log",
            1700000000000,
            300,
            (0..32u8).collect(),
            "aaaea79110c6be6c0ed25727ddba746f4806b13b50a4d7ffe17374ff37b7c008bbcd0d5412a2569b6ffdb4d7024e462a2f818505dbdbfacbaa621b5aa3d3f401",
            Ciphersuite::ProtobufEd25519,
        ),
        (
            SECRET,
            PUBLIC,
            0x1a,
            "cloudflare.log",
            1700000000000,
            300,
            (0..32u8).collect(),
            "a927fd468e66f07619d71a1b686e81193ae8d12065b7f494fd60344d91200210826c0b83899138f23f978990577d63d7abce3c2944db1ec1e32d5bd0702bca04",
            Ciphersuite::BincodeEd25519,
        ),
    ];
    for (signing_key, verifying_key, key_id, namespace, timestamp, epoch, digest, signature, suite) in vectors {
        let derived = public_key(&bytes(signing_key)).unwrap();
        assert_eq!(derived, bytes(verifying_key));

        let key: [u8; 32] = derived.clone().try_into().unwrap();
        assert_eq!(ed25519_public_key_to_key_id(&key), key_id);

        let message = SignatureMessage::new(
            &suite,
            namespace.to_string(),
            timestamp,
            &Epoch::from(epoch),
            digest,
        )
        .unwrap();

        let made = sign(&bytes(signing_key), &message.to_vec().unwrap()).unwrap();
        assert_eq!(made, bytes(signature));

        assert!(verify(&derived, &message.to_vec().unwrap(), &made).is_ok());
    }
}

#[test]
fn response_keeps_its_parts() {
    let r = SignatureResponse::new(
        &Ciphersuite::ProtobufEd25519,
        &Ciphersuite::BincodeEd25519,
        "n".to_string(),
        2,
        &Epoch::from(3),
        vec![4],
        vec![5; 64],
        Some(6),
        Some(vec![7]),
    );
    assert_eq!(*r.version(), Ciphersuite::ProtobufEd25519);
    assert_eq!(*r.ciphersuite(), Ciphersuite::BincodeEd25519);
    assert_eq!(r.namespace(), "n");
    assert_eq!(r.timestamp(), 2);
    assert_eq!(r.epoch().number(), 3);
    assert_eq!(r.digest(), vec![4]);
    assert_eq!(r.signature(), [5u8; 64]);
    assert_eq!(r.signature_bytes(), &[5u8; 64][..]);
    assert_eq!(r.key_id(), Some(6));
    assert_eq!(r.serialized_message(), Some(vec![7]));
    let m = r.message();
    assert_eq!(*m.ciphersuite(), Ciphersuite::BincodeEd25519);
    assert_eq!(m.namespace(), "n");
    assert_eq!(m.timestamp(), 2);
    assert_eq!(m.epoch().number(), 3);
    assert_eq!(m.digest(), vec![4]);
}

#[test]
fn response_equality_is_by_every_part() {
    let a = signed(Ciphersuite::ProtobufEd25519, "n", 2, 3, &[4]);
    let b = signed(Ciphersuite::ProtobufEd25519, "n", 2, 3, &[4]);
    assert!(a == b);
    assert!(a == a.clone());
    assert!(a != signed(Ciphersuite::ProtobufEd25519, "m", 2, 3, &[4]));
    assert!(a != signed(Ciphersuite::ProtobufEd25519, "n", 3, 3, &[4]));
    assert!(a != signed(Ciphersuite::ProtobufEd25519, "n", 2, 4, &[4]));
    assert!(a != signed(Ciphersuite::ProtobufEd25519, "n", 2, 3, &[5]));
    assert!(a != signed(Ciphersuite::BincodeEd25519, "n", 2, 3, &[4]));
    let with_message = SignatureResponse::new(
        a.version(),
        a.ciphersuite(),
        a.namespace().to_string(),
        a.timestamp(),
        a.epoch(),
        a.digest(),
        a.signature_bytes().to_vec(),
        a.key_id(),
        Some(vec![]),
    );
    assert!(a != with_message);
    let without_key = SignatureResponse::new(
        a.version(),
        a.ciphersuite(),
        a.namespace().to_string(),
        a.timestamp(),
        a.epoch(),
        a.digest(),
        a.signature_bytes().to_vec(),
        None,
        None,
    );
    assert!(a != without_key);
}

#[test]
fn response_verifies_under_the_signing_key() {
    for suite in [Ciphersuite::ProtobufEd25519, Ciphersuite::BincodeEd25519] {
        let r = signed(suite, "ns", 1700000000000, 5, &[0xab; 32]);
        assert_eq!(r.verify(&bytes(PUBLIC)), Ok(()));
    }
}

#[test]
fn response_does_not_verify_under_another_key() {
    let r = signed(Ciphersuite::ProtobufEd25519, "ns", 1700000000000, 5, &[0xab; 32]);
    assert_eq!(
        r.verify(&bytes(OTHER_PUBLIC)),
        Err(VerifyError::Signature(SignatureFault::Mismatch))
    );
}

#[test]
fn response_with_a_changed_part_does_not_verify() {
    let r = signed(Ciphersuite::ProtobufEd25519, "ns", 10, 5, &[0xab; 32]);
    let changed = SignatureResponse::new(
        r.version(),
        r.ciphersuite(),
        r.namespace().to_string(),
        r.timestamp(),
        &Epoch::from(6),
        r.digest(),
        r.signature_bytes().to_vec(),
        r.key_id(),
        None,
    );
    assert_eq!(
        changed.verify(&bytes(PUBLIC)),
        Err(VerifyError::Signature(SignatureFault::Mismatch))
    );
    let other_encoding = SignatureResponse::new(
        &Ciphersuite::BincodeEd25519,
        &Ciphersuite::BincodeEd25519,
        r.namespace().to_string(),
        r.timestamp(),
        r.epoch(),
        r.digest(),
        r.signature_bytes().to_vec(),
        r.key_id(),
        None,
    );
    assert_eq!(
        other_encoding.verify(&bytes(PUBLIC)),
        Err(VerifyError::Signature(SignatureFault::Mismatch))
    );
}

#[test]
fn response_verify_reports_each_fault() {
    let r = signed(Ciphersuite::ProtobufEd25519, "ns", 10, 5, &[0xab; 32]);
    let with = |version: Ciphersuite, suite: Ciphersuite, signature: Vec<u8>| {
        SignatureResponse::new(
            &version,
            &suite,
            r.namespace().to_string(),
            r.timestamp(),
            r.epoch(),
            r.digest(),
            signature,
            r.key_id(),
            None,
        )
    };
    let good = r.signature_bytes().to_vec();
    assert_eq!(
        with(Ciphersuite::Unknown(9), Ciphersuite::ProtobufEd25519, good.clone()).verify(&bytes(PUBLIC)),
        Err(VerifyError::UnsupportedVersion)
    );
    assert_eq!(
        with(Ciphersuite::ProtobufEd25519, Ciphersuite::Unknown(9), good.clone()).verify(&bytes(PUBLIC)),
        Err(VerifyError::Serialization)
    );
    assert_eq!(
        r.verify(&bytes(PUBLIC)[..16]),
        Err(VerifyError::Signature(SignatureFault::KeyLength))
    );
    let mut no_point = [0u8; 32];
    no_point[0] = 2;
    assert_eq!(
        r.verify(&no_point),
        Err(VerifyError::Signature(SignatureFault::KeyInvalid))
    );
    assert_eq!(
        with(Ciphersuite::ProtobufEd25519, Ciphersuite::ProtobufEd25519, good[..10].to_vec()).verify(&bytes(PUBLIC)),
        Err(VerifyError::Signature(SignatureFault::SignatureLength))
    );
    assert_eq!(
        with(Ciphersuite::ProtobufEd25519, Ciphersuite::ProtobufEd25519, vec![]).verify(&bytes(PUBLIC)),
        Err(VerifyError::Signature(SignatureFault::SignatureLength))
    );
    // The version is looked at before anything else.
    assert_eq!(
        with(Ciphersuite::Unknown(0), Ciphersuite::Unknown(0), vec![]).verify(&[]),
        Err(VerifyError::UnsupportedVersion)
    );
}

#[test]
fn verify_error_texts() {
    assert_eq!(
        VerifyError::UnsupportedVersion.to_string(),
        "Verification is not supported for the given version."
    );
    assert_eq!(VerifyError::Serialization.to_string(), "cannot serialize message");
    assert_eq!(
        VerifyError::Signature(SignatureFault::KeyLength).to_string(),
        "verifying_key should have length 32"
    );
    assert_eq!(
        VerifyError::Signature(SignatureFault::KeyInvalid).to_string(),
        "Cannot parse the provided verifying_key."
    );
    assert_eq!(
        VerifyError::Signature(SignatureFault::SignatureLength).to_string(),
        "Cannot construct an Ed25519 signature."
    );
    assert_eq!(
        VerifyError::Signature(SignatureFault::Mismatch).to_string(),
        "signature error"
    );
}

#[test]
fn request_keeps_its_parts() {
    let request = SignatureRequest::new(Epoch::from(9), vec![1, 2, 3]);
    assert_eq!(request.epoch().number(), 9);
    assert_eq!(request.digest(), vec![1, 2, 3]);
}
