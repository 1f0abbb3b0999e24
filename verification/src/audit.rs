//! The audit of one epoch: which key verifies its signature, and the walk
//! from the epoch back to the root of its namespace. The library decides;
//! fetching signatures and proofs and running the append-only verifier is
//! the caller's part, who hands each result back.

use vstd::prelude::*;
use crate::auditor::{
    digest_array, first_key_with_id, AuditBlobIdentifier, Configuration, DIGEST_LENGTH,
};
use crate::epoch::Epoch;
use crate::hexcode::{decode_hex, hex_decoded, is_hex_text};
use crate::namespaces::{NamespaceInfo, NamespaceInfoView};
use crate::response::{verification, ResponseView, SignatureResponse};
use crate::root::{parse_root, parsed_root};
use crate::status::{StatusView, VerificationStatus};
use crate::text::bytes_eq;

verus! {

/// The key, as hexadecimal text, under which the signature of a response is
/// to be verified, or the failure to find one. A key that the caller names
/// is taken. Else the response must say which key signed it, and the
/// auditor's configuration must hold a key of that identifier: the first
/// such key is taken.
pub open spec fn selected_key(
    named: Option<Seq<char>>,
    key_id: Option<u8>,
    keys: Seq<(Seq<char>, u64)>,
) -> Result<Seq<char>, StatusView> {
    match named {
        Some(key) => Ok(key),
        None => match key_id {
            None => Err(StatusView::Failed("don't want to implement random key validation"@)),
            Some(id) => match first_key_with_id(keys, id) {
                Some(i) => Ok(keys[i].0),
                None => Err(StatusView::Failed("auditor does not have key with key_id"@)),
            },
        },
    }
}

/// Picks the key under which the signature of `signature` is to be verified.
pub fn select_key<'a>(
    named: Option<&'a str>,
    signature: &SignatureResponse,
    config: &'a Configuration,
) -> (r: Result<&'a str, VerificationStatus>)
    ensures
        match selected_key(
            match named {
                Some(key) => Some(key@),
                None => None,
            },
            signature@.key_id,
            config.spec_keys(),
        ) {
            Ok(key) => r is Ok && r->Ok_0@ == key,
            Err(status) => r is Err && r->Err_0@ == status,
        },
{
    match named {
        Some(key) => Ok(key),
        None => {
            let key_id = match signature.key_id() {
                Some(id) => id,
                None => {
                    return Err(
                        VerificationStatus::failed("don't want to implement random key validation"),
                    );
                },
            };
            match config.find_key(key_id) {
                Some(key) => Ok(key.public_key().as_str()),
                None => Err(VerificationStatus::failed("auditor does not have key with key_id")),
            }
        },
    }
}

/// The key, as hexadecimal text, for an audit of local evidence: only a key
/// that the caller names can be taken.
pub fn select_named_key<'a>(named: Option<&'a str>) -> (r: Result<&'a str, VerificationStatus>)
    ensures
        match named {
            Some(key) => r == Ok::<&str, VerificationStatus>(key),
            None => r is Err && r->Err_0@ == StatusView::Failed(
                "auditor does not have key with key_id"@,
            ),
        },
{
    match named {
        Some(key) => Ok(key),
        None => Err(VerificationStatus::failed("auditor does not have key with key_id")),
    }
}

/// The outcome of verifying the signature of the response `r` under the key
/// whose hexadecimal text is `key`.
pub open spec fn signature_outcome(r: ResponseView, key: Seq<char>) -> StatusView {
    if !is_hex_text(key) {
        StatusView::Failed("auditor key is not valid hex"@)
    } else if verification(r, hex_decoded(key)) is Err {
        StatusView::Failed("signature does not verify for the auditor key"@)
    } else {
        StatusView::Success
    }
}

/// Verifies the signature of `signature` under the key whose hexadecimal
/// text is `verifying_key`.
pub fn signature_status(signature: &SignatureResponse, verifying_key: &str) -> (status:
    VerificationStatus)
    ensures
        status@ == signature_outcome(signature@, verifying_key@),
{
    let key = match decode_hex(verifying_key) {
        Some(key) => key,
        None => {
            return VerificationStatus::failed("auditor key is not valid hex");
        },
    };
    match signature.verify(key.as_slice()) {
        Ok(()) => VerificationStatus::Success,
        Err(_) => VerificationStatus::failed("signature does not verify for the auditor key"),
    }
}

/// Verifies the signature of `signature` under the key that the caller names
/// or, failing that, under the auditor's key of the identifier that the
/// response gives.
pub fn verify_signature(
    named: Option<&str>,
    signature: &SignatureResponse,
    config: &Configuration,
) -> (status: VerificationStatus)
    ensures
        status@ == match selected_key(
            match named {
                Some(key) => Some(key@),
                None => None,
            },
            signature@.key_id,
            config.spec_keys(),
        ) {
            Ok(key) => signature_outcome(signature@, key),
            Err(failure) => failure,
        },
{
    match select_key(named, signature, config) {
        Ok(key) => signature_status(signature, key),
        Err(failure) => failure,
    }
}

/// Verifies the signature of `signature` under the key that the caller
/// names, with no auditor to ask for one.
pub fn verify_signature_locally(named: Option<&str>, signature: &SignatureResponse) -> (status:
    VerificationStatus)
    ensures
        status@ == match named {
            Some(key) => signature_outcome(signature@, key@),
            None => StatusView::Failed("auditor does not have key with key_id"@),
        },
{
    match select_named_key(named) {
        Ok(key) => signature_status(signature, key),
        Err(failure) => failure,
    }
}

/// Whether the walk to the root is to be made: only a signature that passed
/// is worth it. After any other outcome the proof is left unverified.
pub fn walk_is_due(signature_status: &VerificationStatus) -> (due: bool)
    ensures
        due == (signature_status@ is Success),
{
    match signature_status {
        VerificationStatus::Success => true,
        _ => false,
    }
}

/// What the caller is to do next in an audit, with texts and byte strings as
/// sequences.
pub enum StepView {
    Report(StatusView),
    FetchPrevious { epoch: u64, log_directory: Seq<char> },
    FetchProof { epoch: u64, previous_hash: Seq<u8>, current_hash: Seq<u8>, log_directory: Seq<char> },
    VerifyProof { epoch: u64, previous_hash: Seq<u8>, current_hash: Seq<u8>, raw_proof: Seq<u8> },
    Abort,
}

/// What the caller is to do next in an audit whose signature has passed.
#[derive(Debug)]
pub enum AuditStep {
    /// The audit is over, with this outcome for the proof.
    Report(VerificationStatus),
    /// Fetch the signed response of the given epoch, the one before the
    /// audited epoch, and hand it to `on_previous_signature`.
    FetchPrevious { epoch: Epoch, log_directory: String },
    /// Fetch the proof of this name under the given location, and hand it to
    /// `on_proof`.
    FetchProof { blob: AuditBlobIdentifier, log_directory: String },
    /// Run the append-only verifier on the proof, and hand its verdict to
    /// `on_verdict`.
    VerifyProof { blob: AuditBlobIdentifier, raw_proof: Vec<u8> },
    /// The log has no response for the epoch before one that lies after its
    /// root: there is nothing to report, and the audit is given up.
    Abort,
}

impl View for AuditStep {
    type V = StepView;

    open spec fn view(&self) -> StepView {
        match self {
            AuditStep::Report(status) => StepView::Report(status@),
            AuditStep::FetchPrevious { epoch, log_directory } => StepView::FetchPrevious {
                epoch: epoch@,
                log_directory: log_directory@,
            },
            AuditStep::FetchProof { blob, log_directory } => StepView::FetchProof {
                epoch: blob.epoch,
                previous_hash: blob.previous_hash@,
                current_hash: blob.current_hash@,
                log_directory: log_directory@,
            },
            AuditStep::VerifyProof { blob, raw_proof } => StepView::VerifyProof {
                epoch: blob.epoch,
                previous_hash: blob.previous_hash@,
                current_hash: blob.current_hash@,
                raw_proof: raw_proof@,
            },
            AuditStep::Abort => StepView::Abort,
        }
    }
}

/// The first step of the walk, for a response of the given epoch and digest
/// in a namespace with the given place of proofs and root. A namespace that
/// keeps no proofs has none verified. Else it must have a root, which must
/// read as one. An epoch before the root fails. The epoch of the root must
/// have the digest of the root, and then passes with nothing fetched. A later
/// epoch needs the response of the epoch before it.
pub open spec fn anchor_step(
    epoch: u64,
    digest: Seq<u8>,
    log_directory: Option<Seq<char>>,
    root: Option<Seq<char>>,
) -> StepView {
    match log_directory {
        None => StepView::Report(StatusView::Disabled),
        Some(directory) => match root {
            None => StepView::Report(StatusView::Failed("no root"@)),
            Some(text) => match parsed_root(text) {
                None => StepView::Report(StatusView::Failed("invalid root"@)),
                Some((root_epoch, root_digest)) => {
                    if epoch < root_epoch {
                        StepView::Report(StatusView::Failed("epoch before root"@))
                    } else if epoch == root_epoch {
                        if digest == root_digest {
                            StepView::Report(StatusView::Success)
                        } else {
                            StepView::Report(StatusView::Failed("root mismatch"@))
                        }
                    } else {
                        StepView::FetchPrevious {
                            epoch: (epoch - 1) as u64,
                            log_directory: directory,
                        }
                    }
                },
            },
        },
    }
}

/// The step that follows the fetch of a namespace. A namespace that the
/// auditor does not know fails the proof.
pub open spec fn namespace_step(signature: ResponseView, namespace: Option<NamespaceInfoView>) -> StepView {
    match namespace {
        None => StepView::Report(StatusView::Failed("namespace does not exist"@)),
        Some(info) => anchor_step(signature.epoch, signature.digest, info.log_directory, info.root),
    }
}

/// The step that follows the fetch of the response before the audited one.
/// The log must have that response. Both digests must have the length of a
/// digest, the audited one being looked at first; they and the audited epoch
/// name the proof to fetch.
pub open spec fn previous_step(
    signature: ResponseView,
    previous: Option<ResponseView>,
    log_directory: Seq<char>,
) -> StepView {
    match previous {
        None => StepView::Abort,
        Some(before) => {
            if signature.digest.len() != DIGEST_LENGTH || before.digest.len() != DIGEST_LENGTH {
                StepView::Report(StatusView::Failed("digest length invalid"@))
            } else {
                StepView::FetchProof {
                    epoch: signature.epoch,
                    previous_hash: before.digest,
                    current_hash: signature.digest,
                    log_directory,
                }
            }
        },
    }
}

/// The step that follows the fetch of a proof. A proof that is not found
/// fails; one that is found goes to the verifier as it is.
pub open spec fn proof_step(
    epoch: u64,
    previous_hash: Seq<u8>,
    current_hash: Seq<u8>,
    raw_proof: Option<Seq<u8>>,
) -> StepView {
    match raw_proof {
        None => StepView::Report(StatusView::Failed("proof unavailable"@)),
        Some(bytes) => StepView::VerifyProof { epoch, previous_hash, current_hash, raw_proof: bytes },
    }
}

/// The outcome that the verdict of the append-only verifier stands for: the
/// verdict itself, with its reason unchanged.
pub open spec fn verdict_outcome(verdict: Result<(), String>) -> StatusView {
    match verdict {
        Ok(()) => StatusView::Success,
        Err(reason) => StatusView::Failed(reason@),
    }
}

/// The first step for local evidence, where the proof itself is at hand and
/// its first digest was computed from it: no proof means that none is
/// verified; else the audited digest and the computed one must have the
/// length of a digest, and the proof goes to the verifier.
pub open spec fn local_step(
    signature: ResponseView,
    evidence: Option<(Seq<u8>, Seq<u8>)>,
) -> StepView {
    match evidence {
        None => StepView::Report(StatusView::Disabled),
        Some((raw_proof, start_hash)) => {
            if signature.digest.len() != DIGEST_LENGTH || start_hash.len() != DIGEST_LENGTH {
                StepView::Report(StatusView::Failed("digest length invalid"@))
            } else {
                StepView::VerifyProof {
                    epoch: signature.epoch,
                    previous_hash: start_hash,
                    current_hash: signature.digest,
                    raw_proof,
                }
            }
        },
    }
}

/// An epoch that is the epoch of the root, with the digest of the root,
/// passes at once: nothing is fetched and the verifier is not asked.
pub proof fn lemma_root_match_passes(
    epoch: u64,
    digest: Seq<u8>,
    log_directory: Seq<char>,
    root: Seq<char>,
)
    requires
        parsed_root(root) == Some((epoch, digest)),
    ensures
        anchor_step(epoch, digest, Some(log_directory), Some(root)) == StepView::Report(
            StatusView::Success,
        ),
{
}

/// An epoch that is the epoch of the root, with another digest than the
/// root's, fails as a mismatch.
pub proof fn lemma_root_mismatch_fails(
    epoch: u64,
    digest: Seq<u8>,
    root_digest: Seq<u8>,
    log_directory: Seq<char>,
    root: Seq<char>,
)
    requires
        parsed_root(root) == Some((epoch, root_digest)),
        digest != root_digest,
    ensures
        anchor_step(epoch, digest, Some(log_directory), Some(root)) == StepView::Report(
            StatusView::Failed("root mismatch"@),
        ),
{
}

/// An epoch before the epoch of the root fails, whatever its digest.
pub proof fn lemma_epoch_before_root_fails(
    epoch: u64,
    digest: Seq<u8>,
    root_epoch: u64,
    root_digest: Seq<u8>,
    log_directory: Seq<char>,
    root: Seq<char>,
)
    requires
        parsed_root(root) == Some((root_epoch, root_digest)),
        epoch < root_epoch,
    ensures
        anchor_step(epoch, digest, Some(log_directory), Some(root)) == StepView::Report(
            StatusView::Failed("epoch before root"@),
        ),
{
}

/// The walk reports a pass on its own account in one case only: the audited
/// epoch is the epoch of the root and has the digest of the root. Every other
/// pass is a verdict of the verifier. The steps that follow a fetch never
/// report a pass.
pub proof fn lemma_pass_only_at_root(
    signature: ResponseView,
    namespace: Option<NamespaceInfoView>,
    previous: Option<ResponseView>,
    log_directory: Seq<char>,
    previous_hash: Seq<u8>,
    raw_proof: Option<Seq<u8>>,
    evidence: Option<(Seq<u8>, Seq<u8>)>,
)
    ensures
        namespace_step(signature, namespace) == StepView::Report(StatusView::Success) ==> {
            &&& namespace is Some
            &&& namespace->Some_0.log_directory is Some
            &&& namespace->Some_0.root is Some
            &&& parsed_root(namespace->Some_0.root->Some_0) == Some(
                (signature.epoch, signature.digest),
            )
        },
        previous_step(signature, previous, log_directory) != StepView::Report(StatusView::Success),
        proof_step(signature.epoch, previous_hash, signature.digest, raw_proof)
            != StepView::Report(StatusView::Success),
        local_step(signature, evidence) != StepView::Report(StatusView::Success),
{
}

/// Decides the first step of the walk from what the auditor says of the
/// namespace of `signature`.
pub fn on_namespace(signature: &SignatureResponse, namespace: Option<&NamespaceInfo>) -> (step:
    AuditStep)
    ensures
        step@ == namespace_step(
            signature@,
            match namespace {
                Some(info) => Some(info@),
                None => None,
            },
        ),
{
    let info = match namespace {
        Some(info) => info,
        None => {
            return AuditStep::Report(VerificationStatus::failed("namespace does not exist"));
        },
    };
    let log_directory = match info.log_directory() {
        Some(directory) => directory,
        None => {
            return AuditStep::Report(VerificationStatus::Disabled);
        },
    };
    let root = match info.root() {
        Some(root) => root,
        None => {
            return AuditStep::Report(VerificationStatus::failed("no root"));
        },
    };
    let (root_epoch, root_digest) = match parse_root(root) {
        Some(parts) => parts,
        None => {
            return AuditStep::Report(VerificationStatus::failed("invalid root"));
        },
    };
    let epoch = *signature.epoch();
    if epoch < root_epoch {
        return AuditStep::Report(VerificationStatus::failed("epoch before root"));
    }
    if epoch == root_epoch {
        let digest = signature.digest();
        if bytes_eq(digest.as_slice(), root_digest.as_slice()) {
            return AuditStep::Report(VerificationStatus::Success);
        } else {
            return AuditStep::Report(VerificationStatus::failed("root mismatch"));
        }
    }
    AuditStep::FetchPrevious {
        epoch: epoch.previous(),
        log_directory: String::from_str(log_directory),
    }
}

/// Decides the step that follows the fetch of the response before the
/// audited one.
pub fn on_previous_signature(
    signature: &SignatureResponse,
    previous: Option<&SignatureResponse>,
    log_directory: String,
) -> (step: AuditStep)
    ensures
        step@ == previous_step(
            signature@,
            match previous {
                Some(before) => Some(before@),
                None => None,
            },
            log_directory@,
        ),
{
    let before = match previous {
        Some(before) => before,
        None => {
            return AuditStep::Abort;
        },
    };
    let current_digest = signature.digest();
    let current_hash = match digest_array(current_digest.as_slice()) {
        Some(hash) => hash,
        None => {
            return AuditStep::Report(VerificationStatus::failed("digest length invalid"));
        },
    };
    let previous_digest = before.digest();
    let previous_hash = match digest_array(previous_digest.as_slice()) {
        Some(hash) => hash,
        None => {
            return AuditStep::Report(VerificationStatus::failed("digest length invalid"));
        },
    };
    AuditStep::FetchProof {
        blob: AuditBlobIdentifier {
            epoch: signature.epoch().number(),
            previous_hash,
            current_hash,
        },
        log_directory,
    }
}

/// Decides the step that follows the fetch of a proof.
pub fn on_proof(blob: AuditBlobIdentifier, raw_proof: Option<Vec<u8>>) -> (step: AuditStep)
    ensures
        step@ == proof_step(
            blob.epoch,
            blob.previous_hash@,
            blob.current_hash@,
            match raw_proof {
                Some(bytes) => Some(bytes@),
                None => None,
            },
        ),
{
    match raw_proof {
        Some(bytes) => AuditStep::VerifyProof { blob, raw_proof: bytes },
        None => AuditStep::Report(VerificationStatus::failed("proof unavailable")),
    }
}

/// Turns the verdict of the append-only verifier into the outcome of the
/// proof.
pub fn on_verdict(verdict: Result<(), String>) -> (status: VerificationStatus)
    ensures
        status@ == verdict_outcome(verdict),
{
    match verdict {
        Ok(()) => VerificationStatus::Success,
        Err(reason) => VerificationStatus::Failed(reason),
    }
}

/// Decides the first step for local evidence: the proof, if the caller has
/// one, with the first digest that was computed from it.
pub fn on_local_evidence(signature: &SignatureResponse, evidence: Option<(Vec<u8>, Vec<u8>)>) -> (step:
    AuditStep)
    ensures
        step@ == local_step(
            signature@,
            match evidence {
                Some((raw_proof, start_hash)) => Some((raw_proof@, start_hash@)),
                None => None,
            },
        ),
{
    let (raw_proof, start_hash) = match evidence {
        Some(parts) => parts,
        None => {
            return AuditStep::Report(VerificationStatus::Disabled);
        },
    };
    let current_digest = signature.digest();
    let current_hash = match digest_array(current_digest.as_slice()) {
        Some(hash) => hash,
        None => {
            return AuditStep::Report(VerificationStatus::failed("digest length invalid"));
        },
    };
    let previous_hash = match digest_array(start_hash.as_slice()) {
        Some(hash) => hash,
        None => {
            return AuditStep::Report(VerificationStatus::failed("digest length invalid"));
        },
    };
    AuditStep::VerifyProof {
        blob: AuditBlobIdentifier {
            epoch: signature.epoch().number(),
            previous_hash,
            current_hash,
        },
        raw_proof,
    }
}

} // verus!
