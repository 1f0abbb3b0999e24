use plexi_core::crypto::{
    ed25519_public_key_to_key_id, public_key, sign, verify, SignatureFault,
};
use plexi_core::PlexiError;

const SECRET: &str = "9d61b19deffd5a60ba844af492ec2cc44449c5697b326919703bac031cae7f60";
const PUBLIC: &str = "d75a980182b10ab7d54bfed3c964073a0ee172f3daa62325af021a68f707511a";
const OTHER_PUBLIC: &str = "3d4017c3e843895a92b70aa74d1b7ebc9c982ccf2ec4968cc0cd55f12af4660c";
const SIGNATURE_OF_EMPTY: &str = "e5564300c360ac729086e2cc806e828a84877f1eb8e5d974d873e065224901555fb8821590a33bacc61e39701cf9b46bd25bf5f0595bbe24655141438e7a100b";

fn bytes(text: &str) -> Vec<u8> {
    hex::decode(text).unwrap()
}

#[test]
fn sign_gives_the_known_signature() {
    let signature = sign(&bytes(SECRET), b"").unwrap();
    assert_eq!(hex::encode(&signature), SIGNATURE_OF_EMPTY);
    assert_eq!(signature.len(), 64);
}

#[test]
fn sign_is_deterministic() {
    let a = sign(&bytes(SECRET), b"some message").unwrap();
    let b = sign(&bytes(SECRET), b"some message").unwrap();
    assert_eq!(a, b);
    let c = sign(&bytes(SECRET), b"some messagf").unwrap();
    assert_ne!(a, c);
}

#[test]
fn sign_refuses_keys_of_other_lengths() {
    for length in [0usize, 1, 31, 33, 64] {
        match sign(&vec![7u8; length], b"m") {
            Err(PlexiError::BadParameter(name)) => assert_eq!(name, "secret_key"),
            _ => panic!("a key of {} bytes was taken", length),
        }
        match public_key(&vec![7u8; length]) {
            Err(PlexiError::BadParameter(name)) => assert_eq!(name, "secret_key"),
            _ => panic!("a key of {} bytes was taken", length),
        }
    }
}

#[test]
fn public_key_of_secret_key() {
    assert_eq!(hex::encode(public_key(&bytes(SECRET)).unwrap()), PUBLIC);
}

#[test]
fn verify_accepts_what_sign_made() {
    for message in [&b""[..], &b"a"[..], &[0u8; 1000][..]] {
        let signature = sign(&bytes(SECRET), message).unwrap();
        assert_eq!(verify(&bytes(PUBLIC), message, &signature), Ok(()));
    }
}

#[test]
fn verify_refuses_another_key() {
    let signature = sign(&bytes(SECRET), b"message").unwrap();
    assert_eq!(
        verify(&bytes(OTHER_PUBLIC), b"message", &signature),
        Err(SignatureFault::Mismatch)
    );
}

#[test]
fn verify_refuses_every_single_bit_flip_of_the_message() {
    let message = b"epoch 5".to_vec();
    let signature = sign(&bytes(SECRET), &message).unwrap();
    for byte in 0..message.len() {
        for bit in 0..8 {
            let mut garbled = message.clone();
            garbled[byte] ^= 1 << bit;
            assert_eq!(
                verify(&bytes(PUBLIC), &garbled, &signature),
                Err(SignatureFault::Mismatch)
            );
        }
    }
}

#[test]
fn verify_refuses_every_single_bit_flip_of_the_signature() {
    let message = b"epoch 5".to_vec();
    let signature = sign(&bytes(SECRET), &message).unwrap();
    for byte in 0..signature.len() {
        for bit in 0..8 {
            let mut garbled = signature.clone();
            garbled[byte] ^= 1 << bit;
            assert_eq!(
                verify(&bytes(PUBLIC), &message, &garbled),
                Err(SignatureFault::Mismatch)
            );
        }
    }
}

#[test]
fn verify_reports_wrong_lengths() {
    let signature = sign(&bytes(SECRET), b"m").unwrap();
    assert_eq!(
        verify(&bytes(PUBLIC)[..31], b"m", &signature),
        Err(SignatureFault::KeyLength)
    );
    assert_eq!(
        verify(&[], b"m", &signature),
        Err(SignatureFault::KeyLength)
    );
    assert_eq!(
        verify(&bytes(PUBLIC), b"m", &signature[..63]),
        Err(SignatureFault::SignatureLength)
    );
    assert_eq!(
        verify(&bytes(PUBLIC), b"m", &[]),
        Err(SignatureFault::SignatureLength)
    );
    assert_eq!(
        verify(&[], b"m", &[]),
        Err(SignatureFault::KeyLength)
    );
}

#[test]
fn verify_reports_a_key_that_is_no_point() {
    // y = 2 is the ordinate of no point of the curve.
    let mut key = [0u8; 32];
    key[0] = 2;
    let signature = sign(&bytes(SECRET), b"m").unwrap();
    assert_eq!(
        verify(&key, b"m", &signature),
        Err(SignatureFault::KeyInvalid)
    );
}

#[test]
fn verify_refuses_a_key_of_small_order() {
    // The neutral element parses as a key and is refused by strict verification.
    let mut key = [0u8; 32];
    key[0] = 1;
    let signature = sign(&bytes(SECRET), b"m").unwrap();
    assert_eq!(
        verify(&key, b"m", &signature),
        Err(SignatureFault::Mismatch)
    );
}

#[test]
fn key_id_is_the_last_byte() {
    let key: [u8; 32] = bytes(PUBLIC).try_into().unwrap();
    assert_eq!(ed25519_public_key_to_key_id(&key), 0x1a);
    let mut other = [0u8; 32];
    other[31] = 0xfe;
    other[0] = 0x01;
    assert_eq!(ed25519_public_key_to_key_id(&other), 0xfe);
}
