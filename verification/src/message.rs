//! The message that is signed for an epoch, and its canonical encodings.

use vstd::prelude::*;
use vstd::utf8::{encode_utf8, encode_utf8_decode_utf8};
use crate::ciphersuite::Ciphersuite;
use crate::epoch::{root_text, Epoch};
use crate::error::{ErrorView, PlexiError};
use crate::hexcode::{encode_hex, hex_encoded};
use crate::wire::{
    bytes_field, le_bytes, le_prefixed, lemma_bytes_field_split, lemma_concat_split, lemma_fits,
    lemma_le_bytes_injective, lemma_le_bytes_len, lemma_varint_field_split, push_bytes_field,
    push_le, push_le_prefixed, push_varint_field, varint_field,
};

verus! {

/// What a signed message says: under which ciphersuite, of which namespace,
/// when (in milliseconds since the Unix epoch), at which epoch, with which
/// digest.
pub struct MessageView {
    pub ciphersuite: Ciphersuite,
    pub namespace: Seq<char>,
    pub timestamp: u64,
    pub epoch: u64,
    pub digest: Seq<u8>,
}

/// The message that is signed for an epoch.
#[derive(Debug)]
pub struct SignatureMessage {
    ciphersuite: Ciphersuite,
    namespace: String,
    timestamp: u64,
    epoch: Epoch,
    digest: Vec<u8>,
}

impl View for SignatureMessage {
    type V = MessageView;

    closed spec fn view(&self) -> MessageView {
        MessageView {
            ciphersuite: self.ciphersuite,
            namespace: self.namespace@,
            timestamp: self.timestamp,
            epoch: self.epoch@,
            digest: self.digest@,
        }
    }
}

impl Clone for SignatureMessage {
    fn clone(&self) -> (copy: Self)
        ensures
            copy@ == self@,
    {
        Self {
            ciphersuite: self.ciphersuite,
            namespace: self.namespace.clone(),
            timestamp: self.timestamp,
            epoch: self.epoch,
            digest: self.digest.clone(),
        }
    }
}

/// The protobuf encoding of a message: five fields, numbered from one in the
/// order ciphersuite, namespace, timestamp, epoch, digest, every one of them
/// present. The epoch is a nested message whose one field holds the number.
pub open spec fn protobuf_encoding(m: MessageView) -> Seq<u8> {
    varint_field(1, m.ciphersuite.code() as nat) + bytes_field(2, encode_utf8(m.namespace))
        + varint_field(3, m.timestamp as nat) + bytes_field(4, varint_field(1, m.epoch as nat))
        + bytes_field(5, m.digest)
}

/// The legacy encoding of a message: the same five values in the same order,
/// each number at its full width with the least significant byte first, each
/// string with its length in front as a 64-bit number.
pub open spec fn legacy_encoding(m: MessageView) -> Seq<u8> {
    le_bytes(m.ciphersuite.code() as nat, 4) + le_prefixed(encode_utf8(m.namespace)) + le_bytes(
        m.timestamp as nat,
        8,
    ) + le_bytes(m.epoch as nat, 8) + le_prefixed(m.digest)
}

/// The bytes that are signed for a message. Only the two known ciphersuites
/// give any.
pub open spec fn canonical_encoding(m: MessageView) -> Option<Seq<u8>> {
    match m.ciphersuite {
        Ciphersuite::ProtobufEd25519 => Some(protobuf_encoding(m)),
        Ciphersuite::BincodeEd25519 => Some(legacy_encoding(m)),
        Ciphersuite::Unknown(_) => None,
    }
}

/// The text and the digest of the message are short enough for their lengths
/// to be written as 64-bit numbers, as those of every message in memory are.
pub open spec fn lengths_fit(m: MessageView) -> bool {
    encode_utf8(m.namespace).len() <= u64::MAX && m.digest.len() <= u64::MAX
}

/// Two messages with the same legacy encoding are the same message.
pub proof fn lemma_legacy_encoding_injective(a: MessageView, b: MessageView)
    requires
        lengths_fit(a),
        lengths_fit(b),
        a.ciphersuite == b.ciphersuite,
        legacy_encoding(a) == legacy_encoding(b),
    ensures
        a == b,
{
    let name_a = encode_utf8(a.namespace);
    let name_b = encode_utf8(b.namespace);
    let code = le_bytes(a.ciphersuite.code() as nat, 4);
    let tail5_a = a.digest;
    let tail5_b = b.digest;
    let tail4_a = le_bytes(a.digest.len(), 8) + tail5_a;
    let tail4_b = le_bytes(b.digest.len(), 8) + tail5_b;
    let tail3_a = le_bytes(a.epoch as nat, 8) + tail4_a;
    let tail3_b = le_bytes(b.epoch as nat, 8) + tail4_b;
    let tail2_a = le_bytes(a.timestamp as nat, 8) + tail3_a;
    let tail2_b = le_bytes(b.timestamp as nat, 8) + tail3_b;
    let tail1_a = name_a + tail2_a;
    let tail1_b = name_b + tail2_b;
    let tail0_a = le_bytes(name_a.len(), 8) + tail1_a;
    let tail0_b = le_bytes(name_b.len(), 8) + tail1_b;
    assert(legacy_encoding(a) =~= code + tail0_a);
    assert(legacy_encoding(b) =~= code + tail0_b);
    lemma_concat_split(code, tail0_a, code, tail0_b);
    lemma_le_bytes_len(name_a.len(), 8);
    lemma_le_bytes_len(name_b.len(), 8);
    lemma_concat_split(le_bytes(name_a.len(), 8), tail1_a, le_bytes(name_b.len(), 8), tail1_b);
    lemma_fits(name_a.len());
    lemma_fits(name_b.len());
    lemma_le_bytes_injective(name_a.len(), name_b.len(), 8);
    lemma_concat_split(name_a, tail2_a, name_b, tail2_b);
    encode_utf8_decode_utf8(a.namespace);
    encode_utf8_decode_utf8(b.namespace);
    lemma_le_bytes_len(a.timestamp as nat, 8);
    lemma_le_bytes_len(b.timestamp as nat, 8);
    lemma_concat_split(
        le_bytes(a.timestamp as nat, 8),
        tail3_a,
        le_bytes(b.timestamp as nat, 8),
        tail3_b,
    );
    lemma_fits(a.timestamp as nat);
    lemma_fits(b.timestamp as nat);
    lemma_le_bytes_injective(a.timestamp as nat, b.timestamp as nat, 8);
    lemma_le_bytes_len(a.epoch as nat, 8);
    lemma_le_bytes_len(b.epoch as nat, 8);
    lemma_concat_split(le_bytes(a.epoch as nat, 8), tail4_a, le_bytes(b.epoch as nat, 8), tail4_b);
    lemma_fits(a.epoch as nat);
    lemma_fits(b.epoch as nat);
    lemma_le_bytes_injective(a.epoch as nat, b.epoch as nat, 8);
    lemma_le_bytes_len(a.digest.len(), 8);
    lemma_le_bytes_len(b.digest.len(), 8);
    lemma_concat_split(
        le_bytes(a.digest.len(), 8),
        tail5_a,
        le_bytes(b.digest.len(), 8),
        tail5_b,
    );
}

/// Two messages with the same protobuf encoding are the same message.
pub proof fn lemma_protobuf_encoding_injective(a: MessageView, b: MessageView)
    requires
        a.ciphersuite == b.ciphersuite,
        protobuf_encoding(a) == protobuf_encoding(b),
    ensures
        a == b,
{
    let code = varint_field(1, a.ciphersuite.code() as nat);
    let empty = Seq::<u8>::empty();
    let epoch_a = varint_field(1, a.epoch as nat);
    let epoch_b = varint_field(1, b.epoch as nat);
    let tail4_a = bytes_field(5, a.digest) + empty;
    let tail4_b = bytes_field(5, b.digest) + empty;
    let tail3_a = bytes_field(4, epoch_a) + tail4_a;
    let tail3_b = bytes_field(4, epoch_b) + tail4_b;
    let tail2_a = varint_field(3, a.timestamp as nat) + tail3_a;
    let tail2_b = varint_field(3, b.timestamp as nat) + tail3_b;
    let tail1_a = bytes_field(2, encode_utf8(a.namespace)) + tail2_a;
    let tail1_b = bytes_field(2, encode_utf8(b.namespace)) + tail2_b;
    assert(protobuf_encoding(a) =~= code + tail1_a);
    assert(protobuf_encoding(b) =~= code + tail1_b);
    lemma_concat_split(code, tail1_a, code, tail1_b);
    lemma_bytes_field_split(
        2,
        encode_utf8(a.namespace),
        tail2_a,
        encode_utf8(b.namespace),
        tail2_b,
    );
    encode_utf8_decode_utf8(a.namespace);
    encode_utf8_decode_utf8(b.namespace);
    lemma_varint_field_split(3, a.timestamp as nat, tail3_a, b.timestamp as nat, tail3_b);
    lemma_bytes_field_split(4, epoch_a, tail4_a, epoch_b, tail4_b);
    assert(epoch_a + empty == epoch_b + empty);
    lemma_varint_field_split(1, a.epoch as nat, empty, b.epoch as nat, empty);
    lemma_bytes_field_split(5, a.digest, empty, b.digest, empty);
}

/// The bytes that are signed say what was signed: two messages under one
/// ciphersuite with the same canonical encoding are the same message.
pub proof fn lemma_canonical_encoding_injective(a: MessageView, b: MessageView)
    requires
        lengths_fit(a),
        lengths_fit(b),
        a.ciphersuite == b.ciphersuite,
        canonical_encoding(a) is Some,
        canonical_encoding(a) == canonical_encoding(b),
    ensures
        a == b,
{
    match a.ciphersuite {
        Ciphersuite::ProtobufEd25519 => lemma_protobuf_encoding_injective(a, b),
        Ciphersuite::BincodeEd25519 => lemma_legacy_encoding_injective(a, b),
        Ciphersuite::Unknown(_) => {},
    }
}

impl SignatureMessage {
    /// A message under a signable ciphersuite. Any other ciphersuite is
    /// refused as a bad parameter, reported under the name `version`.
    pub fn new(
        ciphersuite: &Ciphersuite,
        namespace: String,
        timestamp: u64,
        epoch: &Epoch,
        digest: Vec<u8>,
    ) -> (r: Result<Self, PlexiError>)
        ensures
            ciphersuite.is_signable() ==> r is Ok && r->Ok_0@ == (MessageView {
                ciphersuite: *ciphersuite,
                namespace: namespace@,
                timestamp,
                epoch: epoch@,
                digest: digest@,
            }),
            !ciphersuite.is_signable() ==> r is Err && r->Err_0@ == ErrorView::BadParameter(
                "version"@,
            ),
    {
        if !ciphersuite.signable() {
            return Err(PlexiError::bad_parameter("version"));
        }
        Ok(Self { ciphersuite: *ciphersuite, namespace, timestamp, epoch: *epoch, digest })
    }

    /// A message under any ciphersuite, signable or not.
    pub(crate) fn from_parts(
        ciphersuite: Ciphersuite,
        namespace: String,
        timestamp: u64,
        epoch: Epoch,
        digest: Vec<u8>,
    ) -> (m: Self)
        ensures
            m@ == (MessageView {
                ciphersuite,
                namespace: namespace@,
                timestamp,
                epoch: epoch@,
                digest: digest@,
            }),
    {
        Self { ciphersuite, namespace, timestamp, epoch, digest }
    }

    pub fn ciphersuite(&self) -> (c: &Ciphersuite)
        ensures
            *c == self@.ciphersuite,
    {
        &self.ciphersuite
    }

    pub fn namespace(&self) -> (s: &str)
        ensures
            s@ == self@.namespace,
    {
        self.namespace.as_str()
    }

    pub fn timestamp(&self) -> (t: u64)
        ensures
            t == self@.timestamp,
    {
        self.timestamp
    }

    pub fn epoch(&self) -> (e: &Epoch)
        ensures
            e@ == self@.epoch,
    {
        &self.epoch
    }

    pub fn digest(&self) -> (d: Vec<u8>)
        ensures
            d@ == self@.digest,
    {
        self.digest.clone()
    }

    /// The legacy encoding of the message, whatever its ciphersuite.
    pub fn to_vec_bincode(&self) -> (r: Result<Vec<u8>, PlexiError>)
        ensures
            r is Ok,
            r->Ok_0@ == legacy_encoding(self@),
    {
        let mut buf: Vec<u8> = Vec::new();
        let code: u32 = u32::from(self.ciphersuite);
        push_le(&mut buf, code as u64, 4);
        push_le_prefixed(&mut buf, self.namespace.as_str().as_bytes());
        push_le(&mut buf, self.timestamp, 8);
        push_le(&mut buf, self.epoch.number(), 8);
        push_le_prefixed(&mut buf, self.digest.as_slice());
        assert(buf@ =~= legacy_encoding(self@));
        Ok(buf)
    }

    /// The protobuf encoding of the message, whatever its ciphersuite.
    pub fn to_vec_proto(&self) -> (r: Result<Vec<u8>, PlexiError>)
        ensures
            r is Ok,
            r->Ok_0@ == protobuf_encoding(self@),
    {
        let mut inner: Vec<u8> = Vec::new();
        push_varint_field(&mut inner, 1, self.epoch.number());
        assert(inner@ =~= varint_field(1, self@.epoch as nat));
        let mut buf: Vec<u8> = Vec::new();
        let code: u32 = u32::from(self.ciphersuite);
        push_varint_field(&mut buf, 1, code as u64);
        push_bytes_field(&mut buf, 2, self.namespace.as_str().as_bytes());
        push_varint_field(&mut buf, 3, self.timestamp);
        push_bytes_field(&mut buf, 4, inner.as_slice());
        push_bytes_field(&mut buf, 5, self.digest.as_slice());
        assert(buf@ =~= protobuf_encoding(self@));
        Ok(buf)
    }

    /// The bytes that are signed for the message. A message under an unknown
    /// ciphersuite has none: that is a serialization error.
    pub fn to_vec(&self) -> (r: Result<Vec<u8>, PlexiError>)
        ensures
            match canonical_encoding(self@) {
                Some(bytes) => r is Ok && r->Ok_0@ == bytes,
                None => r is Err && r->Err_0@ == ErrorView::Serialization,
            },
    {
        match self.ciphersuite {
            Ciphersuite::ProtobufEd25519 => self.to_vec_proto(),
            Ciphersuite::BincodeEd25519 => self.to_vec_bincode(),
            Ciphersuite::Unknown(_) => Err(PlexiError::Serialization),
        }
    }

    /// The message as the text of a root: its epoch, a slash, its digest in
    /// hexadecimal.
    pub fn to_string(&self) -> (s: String)
        ensures
            s@ == root_text(self@.epoch, hex_encoded(self@.digest)),
    {
        let digest = encode_hex(self.digest.as_slice());
        self.epoch.as_root_epoch(digest.as_str())
    }
}

} // verus!
