//! Ed25519 signatures over byte strings, and the short identifier of a key.

use vstd::prelude::*;
use vstd::slice::slice_to_vec;
use crate::error::{ErrorView, PlexiError};

verus! {

/// The number of bytes of an Ed25519 public key.
pub const PUBLIC_KEY_LENGTH: usize = 32;

/// The number of bytes of an Ed25519 secret key.
pub const SECRET_KEY_LENGTH: usize = 32;

/// The number of bytes of an Ed25519 signature.
pub const SIGNATURE_LENGTH: usize = 64;

/// Whether the 32 bytes `key` are the encoding of a point of the curve.
pub uninterp spec fn ed25519_key_parses(key: Seq<u8>) -> bool;

/// Whether `signature` passes the strict Ed25519 verification of `message`
/// under the public key `key`.
pub uninterp spec fn ed25519_verifies(key: Seq<u8>, message: Seq<u8>, signature: Seq<u8>) -> bool;

/// The Ed25519 signature of `message` under the secret key `secret`.
pub uninterp spec fn ed25519_signature(secret: Seq<u8>, message: Seq<u8>) -> Seq<u8>;

/// The Ed25519 public key that belongs to the secret key `secret`.
pub uninterp spec fn ed25519_public_key(secret: Seq<u8>) -> Seq<u8>;

/// `ed25519_dalek::VerifyingKey::from_bytes`: whether 32 bytes decompress to
/// a point of the curve. Nothing is claimed of which byte strings do.
#[verifier::external_body]
fn key_parses(key: &[u8; 32]) -> (b: bool)
    ensures
        b == ed25519_key_parses(key@),
{
    ed25519_dalek::VerifyingKey::from_bytes(key).is_ok()
}

/// `ed25519_dalek::VerifyingKey::verify_strict` on a key that parses. The
/// outcome is a function of the three byte strings; nothing more is claimed
/// of it.
#[verifier::external_body]
fn verify_strict(key: &[u8; 32], message: &[u8], signature: &[u8; 64]) -> (b: bool)
    requires
        ed25519_key_parses(key@),
    ensures
        b == ed25519_verifies(key@, message@, signature@),
{
    match ed25519_dalek::VerifyingKey::from_bytes(key) {
        Ok(key) => key.verify_strict(
            message,
            &ed25519_dalek::Signature::from_bytes(signature),
        ).is_ok(),
        Err(_) => false,
    }
}

/// `ed25519_dalek::SigningKey::sign`: signing is deterministic, so the
/// signature is a function of the secret key and the message. Every 32 bytes
/// are a secret key.
#[verifier::external_body]
fn sign_with(secret: &[u8; 32], message: &[u8]) -> (signature: [u8; 64])
    ensures
        signature@ == ed25519_signature(secret@, message@),
{
    ed25519_dalek::Signer::sign(&ed25519_dalek::SigningKey::from_bytes(secret), message).to_bytes()
}

/// `ed25519_dalek::SigningKey::verifying_key`: the public key of a secret
/// key, as bytes.
#[verifier::external_body]
fn derive_public_key(secret: &[u8; 32]) -> (key: [u8; 32])
    ensures
        key@ == ed25519_public_key(secret@),
{
    ed25519_dalek::SigningKey::from_bytes(secret).verifying_key().to_bytes()
}

/// The first 32 bytes of `bytes`.
fn array_32(bytes: &[u8]) -> (a: [u8; 32])
    requires
        bytes@.len() == 32,
    ensures
        a@ == bytes@,
{
    let mut a: [u8; 32] = [0u8; 32];
    let mut i: usize = 0;
    while i < 32
        invariant
            i <= 32,
            bytes@.len() == 32,
            forall|j: int| 0 <= j < i ==> a@[j] == bytes@[j],
        decreases 32 - i,
    {
        a[i] = bytes[i];
        i += 1;
    }
    assert(a@ =~= bytes@);
    a
}

/// The first 64 bytes of `bytes`.
fn array_64(bytes: &[u8]) -> (a: [u8; 64])
    requires
        bytes@.len() == 64,
    ensures
        a@ == bytes@,
{
    let mut a: [u8; 64] = [0u8; 64];
    let mut i: usize = 0;
    while i < 64
        invariant
            i <= 64,
            bytes@.len() == 64,
            forall|j: int| 0 <= j < i ==> a@[j] == bytes@[j],
        decreases 64 - i,
    {
        a[i] = bytes[i];
        i += 1;
    }
    assert(a@ =~= bytes@);
    a
}

/// Why a signature was not accepted.
#[derive(Clone, Copy, Debug, PartialEq, Eq, Structural)]
pub enum SignatureFault {
    /// The public key has not the length of an Ed25519 key.
    KeyLength,
    /// The public key is no point of the curve.
    KeyInvalid,
    /// The signature has not the length of an Ed25519 signature.
    SignatureLength,
    /// The signature does not verify.
    Mismatch,
}

/// Whether, and if not why not, `signature` is accepted for `message` under
/// `key`. The checks come in the order of the faults.
pub open spec fn signature_check(key: Seq<u8>, message: Seq<u8>, signature: Seq<u8>) -> Result<
    (),
    SignatureFault,
> {
    if key.len() != PUBLIC_KEY_LENGTH {
        Err(SignatureFault::KeyLength)
    } else if !ed25519_key_parses(key) {
        Err(SignatureFault::KeyInvalid)
    } else if signature.len() != SIGNATURE_LENGTH {
        Err(SignatureFault::SignatureLength)
    } else if !ed25519_verifies(key, message, signature) {
        Err(SignatureFault::Mismatch)
    } else {
        Ok(())
    }
}

/// Verifies `signature` for `message` under the public key `public_key`,
/// strictly: signatures in a non-canonical encoding are refused. Keys and
/// signatures of any length are taken; a wrong length is a fault like any
/// other.
pub fn verify(public_key: &[u8], message: &[u8], signature: &[u8]) -> (r: Result<
    (),
    SignatureFault,
>)
    ensures
        r == signature_check(public_key@, message@, signature@),
{
    if public_key.len() != PUBLIC_KEY_LENGTH {
        return Err(SignatureFault::KeyLength);
    }
    let key = array_32(public_key);
    if !key_parses(&key) {
        return Err(SignatureFault::KeyInvalid);
    }
    if signature.len() != SIGNATURE_LENGTH {
        return Err(SignatureFault::SignatureLength);
    }
    let sig = array_64(signature);
    if verify_strict(&key, message, &sig) {
        Ok(())
    } else {
        Err(SignatureFault::Mismatch)
    }
}

/// Signs `message` under `secret_key`. The same key and message always give
/// the same 64 bytes. A key that has not 32 bytes is a bad parameter.
pub fn sign(secret_key: &[u8], message: &[u8]) -> (r: Result<Vec<u8>, PlexiError>)
    ensures
        secret_key@.len() == SECRET_KEY_LENGTH ==> r is Ok && r->Ok_0@ == ed25519_signature(
            secret_key@,
            message@,
        ),
        secret_key@.len() != SECRET_KEY_LENGTH ==> r is Err && r->Err_0@
            == ErrorView::BadParameter("secret_key"@),
{
    if secret_key.len() != SECRET_KEY_LENGTH {
        return Err(PlexiError::bad_parameter("secret_key"));
    }
    let secret = array_32(secret_key);
    let signature = sign_with(&secret, message);
    Ok(slice_to_vec(signature.as_slice()))
}

/// The public key that belongs to `secret_key`. A key that has not 32 bytes
/// is a bad parameter.
pub fn public_key(secret_key: &[u8]) -> (r: Result<Vec<u8>, PlexiError>)
    ensures
        secret_key@.len() == SECRET_KEY_LENGTH ==> r is Ok && r->Ok_0@ == ed25519_public_key(
            secret_key@,
        ),
        secret_key@.len() != SECRET_KEY_LENGTH ==> r is Err && r->Err_0@
            == ErrorView::BadParameter("secret_key"@),
{
    if secret_key.len() != SECRET_KEY_LENGTH {
        return Err(PlexiError::bad_parameter("secret_key"));
    }
    let secret = array_32(secret_key);
    let key = derive_public_key(&secret);
    Ok(slice_to_vec(key.as_slice()))
}

/// The identifier of a public key: its last byte. It is a hint for finding a
/// key among a few, and two keys may share one.
pub fn ed25519_public_key_to_key_id(public_key: &[u8; 32]) -> (id: u8)
    ensures
        id == public_key@[31],
{
    public_key[31]
}

} // verus!
