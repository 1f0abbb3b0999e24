//! The outcome of one verification, and how the two outcomes of an audit are
//! shown as one.

use vstd::prelude::*;

verus! {

/// The outcome of a verification with the reason of a failure as text.
pub enum StatusView {
    Success,
    Disabled,
    Failed(Seq<char>),
}

/// The outcome of a verification: it passed, it was not asked for or is not
/// on offer, or it failed for a reason.
#[derive(Debug)]
pub enum VerificationStatus {
    Success,
    Disabled,
    Failed(String),
}

impl View for VerificationStatus {
    type V = StatusView;

    open spec fn view(&self) -> StatusView {
        match self {
            VerificationStatus::Success => StatusView::Success,
            VerificationStatus::Disabled => StatusView::Disabled,
            VerificationStatus::Failed(reason) => StatusView::Failed(reason@),
        }
    }
}

impl Clone for VerificationStatus {
    fn clone(&self) -> (copy: Self)
        ensures
            copy@ == self@,
    {
        match self {
            VerificationStatus::Success => VerificationStatus::Success,
            VerificationStatus::Disabled => VerificationStatus::Disabled,
            VerificationStatus::Failed(reason) => VerificationStatus::Failed(reason.clone()),
        }
    }
}

impl StatusView {
    /// The text of the outcome.
    pub open spec fn text(self) -> Seq<char> {
        match self {
            StatusView::Success => "success"@,
            StatusView::Disabled => "-"@,
            StatusView::Failed(reason) => "failed - "@ + reason,
        }
    }
}

/// The one outcome that stands for an audit, given that of the signature and
/// that of the proof. Where the proof was not verified, the signature's
/// outcome stands. Else a failed signature stands, whatever the proof gave.
/// Else the proof's outcome stands.
pub open spec fn surfaced(signature: StatusView, proof: StatusView) -> StatusView {
    if proof is Disabled {
        signature
    } else if signature is Failed {
        signature
    } else {
        proof
    }
}

impl VerificationStatus {
    /// A failure for the given reason.
    pub fn failed(reason: &str) -> (status: VerificationStatus)
        ensures
            status@ == StatusView::Failed(reason@),
    {
        VerificationStatus::Failed(String::from_str(reason))
    }

    /// The text of the outcome.
    pub fn to_string(&self) -> (s: String)
        ensures
            s@ == self@.text(),
    {
        match self {
            VerificationStatus::Success => String::from_str("success"),
            VerificationStatus::Disabled => String::from_str("-"),
            VerificationStatus::Failed(reason) => String::from_str("failed - ").concat(
                reason.as_str(),
            ),
        }
    }
}

/// The one outcome that stands for an audit.
pub fn surfaced_status<'a>(
    signature: &'a VerificationStatus,
    proof: &'a VerificationStatus,
) -> (status: &'a VerificationStatus)
    ensures
        status@ == surfaced(signature@, proof@),
{
    match (signature, proof) {
        (_, VerificationStatus::Disabled) => signature,
        (VerificationStatus::Failed(_), _) => signature,
        (_, _) => proof,
    }
}

/// The short report of an audit: the text of the outcome that stands for it.
pub fn short_report(signature: &VerificationStatus, proof: &VerificationStatus) -> (s: String)
    ensures
        s@ == surfaced(signature@, proof@).text(),
{
    surfaced_status(signature, proof).to_string()
}

/// A proof that was not verified leaves the signature's outcome standing.
pub proof fn lemma_surfaced_without_proof(signature: StatusView)
    ensures
        surfaced(signature, StatusView::Disabled) == signature,
{
}

/// A failed signature stands, whatever the proof gave.
pub proof fn lemma_surfaced_failed_signature(reason: Seq<char>, proof: StatusView)
    ensures
        surfaced(StatusView::Failed(reason), proof) == StatusView::Failed(reason),
{
}

/// Under a signature that passed, a proof that was verified stands with its
/// own outcome.
pub proof fn lemma_surfaced_proof(proof: StatusView)
    requires
        !(proof is Disabled),
    ensures
        surfaced(StatusView::Success, proof) == proof,
{
}

} // verus!
