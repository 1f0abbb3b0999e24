//! Signed statements about an epoch: the request to sign one, the signed
//! response, and the check of its signature.

use vstd::prelude::*;
use vstd::std_specs::cmp::PartialEqSpecImpl;
use vstd::std_specs::convert::FromSpecImpl;
use crate::ciphersuite::Ciphersuite;
use crate::crypto::{signature_check, verify, SignatureFault, SIGNATURE_LENGTH};
use crate::epoch::Epoch;
use crate::fields::Fields;
use crate::message::{canonical_encoding, MessageView, SignatureMessage};
use crate::text::{bytes_eq, str_eq};

verus! {

/// A request to sign the digest of an epoch.
#[derive(Debug)]
pub struct SignatureRequest {
    epoch: Epoch,
    digest: Vec<u8>,
}

impl View for SignatureRequest {
    type V = (u64, Seq<u8>);

    closed spec fn view(&self) -> (u64, Seq<u8>) {
        (self.epoch@, self.digest@)
    }
}

impl Clone for SignatureRequest {
    fn clone(&self) -> (copy: Self)
        ensures
            copy@ == self@,
    {
        Self { epoch: self.epoch, digest: self.digest.clone() }
    }
}

impl SignatureRequest {
    pub fn new(epoch: Epoch, digest: Vec<u8>) -> (request: Self)
        ensures
            request@ == (epoch@, digest@),
    {
        Self { epoch, digest }
    }

    pub fn epoch(&self) -> (e: Epoch)
        ensures
            e@ == self@.0,
    {
        self.epoch
    }

    pub fn digest(&self) -> (d: Vec<u8>)
        ensures
            d@ == self@.1,
    {
        self.digest.clone()
    }
}

/// What is kept beside a signature: the digest that was signed, as text.
#[derive(Debug)]
pub struct SignatureMetadata {
    digest: String,
}

impl View for SignatureMetadata {
    type V = Seq<char>;

    closed spec fn view(&self) -> Seq<char> {
        self.digest@
    }
}

impl Clone for SignatureMetadata {
    fn clone(&self) -> (copy: Self)
        ensures
            copy@ == self@,
    {
        Self { digest: self.digest.clone() }
    }
}

impl SignatureMetadata {
    pub fn new(digest: String) -> (metadata: Self)
        ensures
            metadata@ == digest@,
    {
        Self { digest }
    }

    pub fn digest(&self) -> (s: &str)
        ensures
            s@ == self@,
    {
        self.digest.as_str()
    }

    /// The map of strings in which the metadata is kept.
    pub fn to_fields(&self) -> (fields: Fields)
        ensures
            fields@ == Map::<Seq<char>, Seq<char>>::empty().insert("digest"@, self@),
    {
        let mut fields = Fields::new();
        fields.insert(String::from_str("digest"), self.digest.clone());
        fields
    }
}

/// What a signed response says: a message, the signature over it, and
/// optionally which key signed and the bytes that were signed. `version` is
/// the older name of the ciphersuite; a response that was read from a record
/// holds one value under both names.
pub struct ResponseView {
    pub version: Ciphersuite,
    pub ciphersuite: Ciphersuite,
    pub namespace: Seq<char>,
    pub timestamp: u64,
    pub epoch: u64,
    pub digest: Seq<u8>,
    pub signature: Seq<u8>,
    pub key_id: Option<u8>,
    pub serialized_message: Option<Seq<u8>>,
}

impl ResponseView {
    /// The message that the response signs: the response without its
    /// signature, under its ciphersuite.
    pub open spec fn message(self) -> MessageView {
        MessageView {
            ciphersuite: self.ciphersuite,
            namespace: self.namespace,
            timestamp: self.timestamp,
            epoch: self.epoch,
            digest: self.digest,
        }
    }
}

/// A signed statement that a namespace had a digest at an epoch.
#[derive(Debug)]
pub struct SignatureResponse {
    version: Ciphersuite,
    ciphersuite: Ciphersuite,
    namespace: String,
    timestamp: u64,
    epoch: Epoch,
    digest: Vec<u8>,
    signature: Vec<u8>,
    key_id: Option<u8>,
    serialized_message: Option<Vec<u8>>,
}

/// A report is a signed response whose signature comes from the log's
/// provider, not from the auditor.
pub type Report = SignatureResponse;

/// The bytes of an optional byte vector.
pub open spec fn optional_bytes(bytes: Option<Vec<u8>>) -> Option<Seq<u8>> {
    match bytes {
        Some(b) => Some(b@),
        None => None,
    }
}

impl View for SignatureResponse {
    type V = ResponseView;

    closed spec fn view(&self) -> ResponseView {
        ResponseView {
            version: self.version,
            ciphersuite: self.ciphersuite,
            namespace: self.namespace@,
            timestamp: self.timestamp,
            epoch: self.epoch@,
            digest: self.digest@,
            signature: self.signature@,
            key_id: self.key_id,
            serialized_message: optional_bytes(self.serialized_message),
        }
    }
}

impl Clone for SignatureResponse {
    fn clone(&self) -> (copy: Self)
        ensures
            copy@ == self@,
    {
        Self {
            version: self.version,
            ciphersuite: self.ciphersuite,
            namespace: self.namespace.clone(),
            timestamp: self.timestamp,
            epoch: self.epoch,
            digest: self.digest.clone(),
            signature: self.signature.clone(),
            key_id: self.key_id,
            serialized_message: self.serialized_message(),
        }
    }
}

/// Why the signature of a response was not accepted.
#[derive(Clone, Copy, Debug, PartialEq, Eq, Structural)]
pub enum VerifyError {
    /// The response is of a version that has no verification.
    UnsupportedVersion,
    /// The response's message has no canonical encoding.
    Serialization,
    /// The key or the signature is at fault.
    Signature(SignatureFault),
}

impl VerifyError {
    /// The text of the error.
    pub open spec fn spec_message(self) -> Seq<char> {
        match self {
            VerifyError::UnsupportedVersion =>
                "Verification is not supported for the given version."@,
            VerifyError::Serialization => "cannot serialize message"@,
            VerifyError::Signature(SignatureFault::KeyLength) =>
                "verifying_key should have length 32"@,
            VerifyError::Signature(SignatureFault::KeyInvalid) =>
                "Cannot parse the provided verifying_key."@,
            VerifyError::Signature(SignatureFault::SignatureLength) =>
                "Cannot construct an Ed25519 signature."@,
            VerifyError::Signature(SignatureFault::Mismatch) => "signature error"@,
        }
    }

    /// The text of the error.
    pub fn to_string(&self) -> (s: String)
        ensures
            s@ == self.spec_message(),
    {
        match self {
            VerifyError::UnsupportedVersion => String::from_str(
                "Verification is not supported for the given version.",
            ),
            VerifyError::Serialization => String::from_str("cannot serialize message"),
            VerifyError::Signature(SignatureFault::KeyLength) => String::from_str(
                "verifying_key should have length 32",
            ),
            VerifyError::Signature(SignatureFault::KeyInvalid) => String::from_str(
                "Cannot parse the provided verifying_key.",
            ),
            VerifyError::Signature(SignatureFault::SignatureLength) => String::from_str(
                "Cannot construct an Ed25519 signature.",
            ),
            VerifyError::Signature(SignatureFault::Mismatch) => String::from_str(
                "signature error",
            ),
        }
    }
}

/// Whether, and if not why not, the signature of the response `r` is
/// accepted under `key`. The version decides whether there is a verification
/// at all; the ciphersuite decides which bytes were signed.
pub open spec fn verification(r: ResponseView, key: Seq<u8>) -> Result<(), VerifyError> {
    if r.version is Unknown {
        Err(VerifyError::UnsupportedVersion)
    } else {
        match canonical_encoding(r.message()) {
            None => Err(VerifyError::Serialization),
            Some(bytes) => match signature_check(key, bytes, r.signature) {
                Ok(()) => Ok(()),
                Err(fault) => Err(VerifyError::Signature(fault)),
            },
        }
    }
}

impl SignatureResponse {
    pub fn new(
        version: &Ciphersuite,
        ciphersuite: &Ciphersuite,
        namespace: String,
        timestamp: u64,
        epoch: &Epoch,
        digest: Vec<u8>,
        signature: Vec<u8>,
        key_id: Option<u8>,
        serialized_message: Option<Vec<u8>>,
    ) -> (response: Self)
        ensures
            response@ == (ResponseView {
                version: *version,
                ciphersuite: *ciphersuite,
                namespace: namespace@,
                timestamp,
                epoch: epoch@,
                digest: digest@,
                signature: signature@,
                key_id,
                serialized_message: optional_bytes(serialized_message),
            }),
    {
        Self {
            version: *version,
            ciphersuite: *ciphersuite,
            namespace,
            timestamp,
            epoch: *epoch,
            digest,
            signature,
            key_id,
            serialized_message,
        }
    }

    pub fn version(&self) -> (c: &Ciphersuite)
        ensures
            *c == self@.version,
    {
        &self.version
    }

    pub fn ciphersuite(&self) -> (c: &Ciphersuite)
        ensures
            *c == self@.ciphersuite,
    {
        &self.ciphersuite
    }

    pub fn namespace(&self) -> (s: &str)
        ensures
            s@ == self@.namespace,
    {
        self.namespace.as_str()
    }

    pub fn timestamp(&self) -> (t: u64)
        ensures
            t == self@.timestamp,
    {
        self.timestamp
    }

    pub fn epoch(&self) -> (e: &Epoch)
        ensures
            e@ == self@.epoch,
    {
        &self.epoch
    }

    pub fn digest(&self) -> (d: Vec<u8>)
        ensures
            d@ == self@.digest,
    {
        self.digest.clone()
    }

    /// The signature as an array. Only a response whose signature has the
    /// length of an Ed25519 signature has one.
    pub fn signature(&self) -> (s: [u8; 64])
        requires
            self@.signature.len() == SIGNATURE_LENGTH,
        ensures
            s@ == self@.signature,
    {
        let mut s: [u8; 64] = [0u8; 64];
        let mut i: usize = 0;
        while i < 64
            invariant
                i <= 64,
                self.signature@.len() == 64,
                forall|j: int| 0 <= j < i ==> s@[j] == self.signature@[j],
            decreases 64 - i,
        {
            s[i] = self.signature[i];
            i += 1;
        }
        assert(s@ =~= self.signature@);
        s
    }

    /// The signature, whatever its length.
    pub fn signature_bytes(&self) -> (s: &[u8])
        ensures
            s@ == self@.signature,
    {
        self.signature.as_slice()
    }

    pub fn key_id(&self) -> (id: Option<u8>)
        ensures
            id == self@.key_id,
    {
        self.key_id
    }

    pub fn serialized_message(&self) -> (m: Option<Vec<u8>>)
        ensures
            optional_bytes(m) == self@.serialized_message,
    {
        match &self.serialized_message {
            Some(bytes) => Some(bytes.clone()),
            None => None,
        }
    }

    /// The message that the response signs.
    pub fn message(&self) -> (m: SignatureMessage)
        ensures
            m@ == self@.message(),
    {
        SignatureMessage::from_parts(
            self.ciphersuite,
            self.namespace.clone(),
            self.timestamp,
            self.epoch,
            self.digest.clone(),
        )
    }

    /// Checks the signature of the response under `verifying_key`.
    pub fn verify(&self, verifying_key: &[u8]) -> (r: Result<(), VerifyError>)
        ensures
            r == verification(self@, verifying_key@),
    {
        match self.version {
            Ciphersuite::BincodeEd25519 => (),
            Ciphersuite::ProtobufEd25519 => (),
            Ciphersuite::Unknown(_) => {
                return Err(VerifyError::UnsupportedVersion);
            },
        }
        let message = self.message();
        let bytes = match message.to_vec() {
            Ok(bytes) => bytes,
            Err(_) => {
                return Err(VerifyError::Serialization);
            },
        };
        match verify(verifying_key, bytes.as_slice(), self.signature.as_slice()) {
            Ok(()) => Ok(()),
            Err(fault) => Err(VerifyError::Signature(fault)),
        }
    }
}

impl From<SignatureResponse> for SignatureMessage {
    fn from(val: SignatureResponse) -> (m: SignatureMessage)
        ensures
            m@ == val@.message(),
    {
        SignatureMessage::from_parts(
            val.ciphersuite,
            val.namespace,
            val.timestamp,
            val.epoch,
            val.digest,
        )
    }
}

/// The conversion is stated over views, by the `ensures` of `from`: a message
/// holds a string and a vector, of which only the contents are fixed.
impl FromSpecImpl<SignatureResponse> for SignatureMessage {
    open spec fn obeys_from_spec() -> bool {
        false
    }

    open spec fn from_spec(val: SignatureResponse) -> SignatureMessage {
        arbitrary()
    }
}

impl From<&SignatureResponse> for SignatureMessage {
    fn from(val: &SignatureResponse) -> (m: SignatureMessage)
        ensures
            m@ == val@.message(),
    {
        val.message()
    }
}

impl FromSpecImpl<&SignatureResponse> for SignatureMessage {
    open spec fn obeys_from_spec() -> bool {
        false
    }

    open spec fn from_spec(val: &SignatureResponse) -> SignatureMessage {
        arbitrary()
    }
}

impl PartialEq for SignatureResponse {
    fn eq(&self, other: &SignatureResponse) -> (b: bool) {
        let same_serialized = match (&self.serialized_message, &other.serialized_message) {
            (Some(a), Some(b)) => bytes_eq(a.as_slice(), b.as_slice()),
            (None, None) => true,
            _ => false,
        };
        self.version == other.version && self.ciphersuite == other.ciphersuite && str_eq(
            self.namespace.as_str(),
            other.namespace.as_str(),
        ) && self.timestamp == other.timestamp && self.epoch == other.epoch && bytes_eq(
            self.digest.as_slice(),
            other.digest.as_slice(),
        ) && bytes_eq(self.signature.as_slice(), other.signature.as_slice()) && self.key_id
            == other.key_id && same_serialized
    }
}

impl PartialEqSpecImpl for SignatureResponse {
    open spec fn obeys_eq_spec() -> bool {
        true
    }

    open spec fn eq_spec(&self, other: &SignatureResponse) -> bool {
        self@ == other@
    }
}

} // verus!
