use plexi_core::auditor::{digest_array, AuditBlobIdentifier, Configuration, KeyInfo};
use plexi_core::fields::Fields;
use plexi_core::PlexiError;

#[test]
fn key_info_keeps_its_parts() {
    let key = KeyInfo::new("ab12", 17);
    assert_eq!(key.public_key(), "ab12");
    assert_eq!(key.not_before(), 17);
    assert_eq!(key.clone(), key);
    assert!(KeyInfo::new("ab12", 17) < KeyInfo::new("ab12", 18));
    assert!(KeyInfo::new("ab12", 17) < KeyInfo::new("ab13", 0));
}

#[test]
fn key_info_key_id_is_the_last_byte_of_the_key() {
    assert_eq!(KeyInfo::new("ab12", 0).key_id(), 0x12);
    assert_eq!(KeyInfo::new("AB1F", 0).key_id(), 0x1f);
    assert_eq!(KeyInfo::new("ab12", 0).try_key_id(), Some(0x12));
    assert_eq!(KeyInfo::new("", 0).try_key_id(), None);
    assert_eq!(KeyInfo::new("abc", 0).try_key_id(), None);
    assert_eq!(KeyInfo::new("key", 0).try_key_id(), None);
    assert_eq!(
        KeyInfo::new(
            "d75a980182b10ab7d54bfed3c964073a0ee172f3daa62325af021a68f707511a",
            0
        )
        .key_id(),
        0x1a
    );
}

#[test]
fn key_info_fields_round_trip() {
    let key = KeyInfo::new("ab12", 17);
    let fields = key.to_fields();
    assert_eq!(fields.get("public_key").map(String::as_str), Some("ab12"));
    assert_eq!(fields.get("not_before").map(String::as_str), Some("17"));
    assert_eq!(KeyInfo::from_fields(&fields).unwrap(), key);
}

#[test]
fn key_info_from_fields_reports_what_is_wrong() {
    let mut fields = Fields::new();
    match KeyInfo::from_fields(&fields) {
        Err(PlexiError::MissingParameter(name)) => assert_eq!(name, "public_key"),
        _ => panic!(),
    }
    fields.insert("public_key".to_string(), "anything".to_string());
    match KeyInfo::from_fields(&fields) {
        Err(PlexiError::MissingParameter(name)) => assert_eq!(name, "not_before"),
        _ => panic!(),
    }
    fields.insert("not_before".to_string(), "soon".to_string());
    match KeyInfo::from_fields(&fields) {
        Err(PlexiError::BadParameter(name)) => assert_eq!(name, "not_before"),
        _ => panic!(),
    }
    fields.insert("not_before".to_string(), "12".to_string());
    let key = KeyInfo::from_fields(&fields).unwrap();
    assert_eq!(key.public_key(), "anything");
    assert_eq!(key.not_before(), 12);
}

#[test]
fn configuration_keeps_its_parts() {
    let keys = [KeyInfo::new("ab12", 1), KeyInfo::new("cd34", 2)];
    let logs = ["a".to_string(), "b".to_string()];
    let config = Configuration::new(&keys, &logs);
    assert_eq!(config.keys().as_slice(), &keys[..]);
    assert_eq!(config.logs().as_slice(), &logs[..]);
    let empty = Configuration::new(&[], &[]);
    assert!(empty.keys().is_empty());
    assert!(empty.logs().is_empty());
}

#[test]
fn configuration_finds_the_first_key_of_an_identifier() {
    let config = Configuration::new(
        &[
            KeyInfo::new("zz", 0),
            KeyInfo::new("0012", 1),
            KeyInfo::new("ff12", 2),
            KeyInfo::new("34", 3),
        ],
        &[],
    );
    assert_eq!(config.find_key(0x12).unwrap().not_before(), 1);
    assert_eq!(config.find_key(0x34).unwrap().not_before(), 3);
    assert!(config.find_key(0x00).is_none());
    assert!(config.find_key(0xff).is_none());
}

#[test]
fn blob_identifier_wants_digests_of_32_bytes() {
    let blob = AuditBlobIdentifier::new(54, &[1; 32], &[0; 32]).unwrap();
    assert_eq!(blob.epoch, 54);
    assert_eq!(blob.previous_hash, [1; 32]);
    assert_eq!(blob.current_hash, [0; 32]);
    for (previous, current) in [(31usize, 32usize), (32, 31), (0, 32), (32, 33), (0, 0)] {
        match AuditBlobIdentifier::new(1, &vec![0; previous], &vec![0; current]) {
            Err(PlexiError::BadParameter(name)) => assert_eq!(name, "digest"),
            _ => panic!("digests of {} and {} bytes were taken", previous, current),
        }
    }
    assert_eq!(digest_array(&[3; 32]), Some([3; 32]));
    assert_eq!(digest_array(&[3; 31]), None);
}

#[test]
fn blob_identifier_name() {
    let blob = AuditBlobIdentifier::new(54, &[1; 32], &[0; 32]).unwrap();
    let expected = "54/0101010101010101010101010101010101010101010101010101010101010101/0000000000000000000000000000000000000000000000000000000000000000";
    assert_eq!(blob.to_string(), expected);
    let theirs = akd::local_auditing::AuditBlobName {
        epoch: blob.epoch,
        previous_hash: blob.previous_hash,
        current_hash: blob.current_hash,
    };
    assert_eq!(blob.to_string(), theirs.to_string());
}
