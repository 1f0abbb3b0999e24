//! The report of an audit as text: one line in short, or the signed
//! statement and both outcomes in full.

use vstd::prelude::*;
use crate::ciphersuite::{format_ciphersuite, spec_format_ciphersuite};
use crate::decimal::decimal_digits;
use crate::error::{ErrorView, PlexiError};
use crate::hexcode::{encode_hex, hex_encoded};
use crate::namespaces::{optional_str, optional_text, NamespaceInfo, NamespaceInfoView, Namespaces};
use crate::response::{ResponseView, SignatureResponse};
use crate::status::{short_report, surfaced, StatusView, VerificationStatus};

verus! {

/// The width to which the labels of the full report are filled up.
pub const LABEL_WIDTH: usize = 22;

/// The form in which the full report shows the time of a signature.
pub open spec fn time_description() -> Seq<char> {
    "[year]-[month]-[day]T[hour]:[minute]:[second]Z"@
}

/// The text of the time `seconds` after the Unix epoch, in UTC, in the form
/// that `description` describes; none where the time is out of the range of
/// the calendar or the description is not understood.
pub uninterp spec fn formatted_utc_time(seconds: int, description: Seq<char>) -> Option<Seq<char>>;

/// `time::OffsetDateTime::from_unix_timestamp` and `format`, with the
/// description read by `time::format_description::parse_borrowed`. The text
/// is a function of the number and the description; nothing more is claimed.
#[verifier::external_body]
fn utc_time_text(seconds: i64, description: &str) -> (text: Option<String>)
    ensures
        optional_text(text) == formatted_utc_time(seconds as int, description@),
{
    let format = time::format_description::parse_borrowed::<1>(description).ok()?;
    time::OffsetDateTime::from_unix_timestamp(seconds).ok()?.format(&format).ok()
}

/// `colored::Colorize::bold` on a label, written with the label filled up to
/// `width` with blanks on the right. Whether the text carries the marks of
/// bold type depends on the terminal and the environment, so nothing is
/// claimed of it.
#[verifier::external_body]
fn bold_label(label: &str, width: usize) -> (text: String) {
    format!("{: <width$}", colored::Colorize::bold(label), width = width)
}

/// The labels of the full report, as they are to be shown.
pub struct ReportLabels {
    pub name: String,
    pub ciphersuite: String,
    pub epoch: String,
    pub digest: String,
    pub signature: String,
    pub signature_verification: String,
    pub proof_verification: String,
}

/// One line of the full report under a label.
pub open spec fn labelled(label: Seq<char>, value: Seq<char>) -> Seq<char> {
    "  "@ + label + ": "@ + value
}

/// The full report: the namespace and its ciphersuite, then, under the time
/// of the signature, the epoch, the digest, the signature and the two
/// outcomes. The ciphersuite shown is the one under the old name.
pub open spec fn full_report(
    r: ResponseView,
    signature: StatusView,
    proof: StatusView,
    time: Seq<char>,
    labels: ReportLabels,
) -> Seq<char> {
    "Namespace"@ + "\n"@ + labelled(labels.name@, r.namespace) + "\n"@ + labelled(
        labels.ciphersuite@,
        spec_format_ciphersuite(r.version),
    ) + "\n"@ + "\nSignature ("@ + time + ")"@ + "\n"@ + labelled(
        labels.epoch@,
        decimal_digits(r.epoch as nat),
    ) + "\n"@ + labelled(labels.digest@, hex_encoded(r.digest)) + "\n"@ + labelled(
        labels.signature@,
        hex_encoded(r.signature),
    ) + "\n"@ + labelled(labels.signature_verification@, signature.text()) + "\n"@ + labelled(
        labels.proof_verification@,
        proof.text(),
    )
}

/// `text` is the full report under some labels.
pub open spec fn is_full_report(
    text: Seq<char>,
    r: ResponseView,
    signature: StatusView,
    proof: StatusView,
    time: Seq<char>,
) -> bool {
    exists|labels: ReportLabels| text == #[trigger] full_report(r, signature, proof, time, labels)
}

/// Appends a line break and one line under a label.
fn push_line(text: String, label: &str, value: &str) -> (r: String)
    ensures
        r@ == text@ + "\n"@ + labelled(label@, value@),
{
    let r = text.concat("\n").concat("  ").concat(label).concat(": ").concat(value);
    assert(r@ =~= text@ + "\n"@ + labelled(label@, value@));
    r
}

/// Lays out the full report with the given text of the time and the given
/// labels.
pub fn layout_audit_response(
    signature: &SignatureResponse,
    signature_verification_status: &VerificationStatus,
    proof_verification_status: &VerificationStatus,
    time: &str,
    labels: &ReportLabels,
) -> (s: String)
    ensures
        s@ == full_report(
            signature@,
            signature_verification_status@,
            proof_verification_status@,
            time@,
            *labels,
        ),
{
    let text = String::from_str("Namespace");
    let text = push_line(text, labels.name.as_str(), signature.namespace());
    let text = push_line(
        text,
        labels.ciphersuite.as_str(),
        format_ciphersuite(signature.version()).as_str(),
    );
    let text = text.concat("\n").concat("\nSignature (").concat(time).concat(")");
    let text = push_line(text, labels.epoch.as_str(), signature.epoch().to_string().as_str());
    let text = push_line(
        text,
        labels.digest.as_str(),
        encode_hex(signature.digest().as_slice()).as_str(),
    );
    let text = push_line(
        text,
        labels.signature.as_str(),
        encode_hex(signature.signature_bytes()).as_str(),
    );
    let text = push_line(
        text,
        labels.signature_verification.as_str(),
        signature_verification_status.to_string().as_str(),
    );
    let text = push_line(
        text,
        labels.proof_verification.as_str(),
        proof_verification_status.to_string().as_str(),
    );
    assert(text@ =~= full_report(
        signature@,
        signature_verification_status@,
        proof_verification_status@,
        time@,
        *labels,
    ));
    text
}

/// The width to which the labels of a listing are filled up.
pub const LIST_LABEL_WIDTH: usize = 11;

/// The labels of the full listing of a namespace, as they are to be shown.
pub struct ListLabels {
    pub status: String,
    pub ciphersuite: String,
    pub root: String,
    pub directory: String,
}

/// An optional text as it is listed: a dash stands for none.
pub open spec fn or_dash(text: Option<Seq<char>>) -> Seq<char> {
    match text {
        Some(t) => t,
        None => "-"@,
    }
}

/// The full entry of a namespace in a listing: its name, then its status,
/// ciphersuite, root and place of proofs under their labels, then an empty
/// line.
pub open spec fn full_entry(info: NamespaceInfoView, labels: ListLabels) -> Seq<char> {
    info.name + "\n"@ + labelled(labels.status@, info.status.spec_name()) + "\n"@ + labelled(
        labels.ciphersuite@,
        spec_format_ciphersuite(info.ciphersuite),
    ) + "\n"@ + labelled(labels.root@, or_dash(info.root)) + "\n"@ + labelled(
        labels.directory@,
        or_dash(info.log_directory),
    ) + "\n"@ + "\n"@
}

/// The entry of a namespace in a listing: its name alone, or its full entry.
pub open spec fn list_entry(info: NamespaceInfoView, long: bool, labels: ListLabels) -> Seq<char> {
    if long {
        full_entry(info, labels)
    } else {
        info.name
    }
}

/// The entries of the namespaces, one under the other.
pub open spec fn listing(list: Seq<NamespaceInfoView>, long: bool, labels: ListLabels) -> Seq<
    char,
>
    decreases list.len(),
{
    if list.len() == 0 {
        Seq::empty()
    } else if list.len() == 1 {
        list_entry(list[0], long, labels)
    } else {
        listing(list.drop_last(), long, labels) + "\n"@ + list_entry(list.last(), long, labels)
    }
}

/// An optional text as it is listed.
fn text_or_dash(text: Option<&str>) -> (r: &str)
    ensures
        r@ == or_dash(optional_str(text)),
{
    match text {
        Some(t) => t,
        None => "-",
    }
}

/// Lays out the entry of one namespace.
fn layout_entry(info: &NamespaceInfo, long: bool, labels: &ListLabels) -> (s: String)
    ensures
        s@ == list_entry(info@, long, *labels),
{
    if !long {
        return String::from_str(info.name());
    }
    let text = String::from_str(info.name());
    let text = push_line(text, labels.status.as_str(), info.status().to_string().as_str());
    let text = push_line(
        text,
        labels.ciphersuite.as_str(),
        format_ciphersuite(&info.signature_version()).as_str(),
    );
    let text = push_line(text, labels.root.as_str(), text_or_dash(info.root()));
    let text = push_line(text, labels.directory.as_str(), text_or_dash(info.log_directory()));
    let text = text.concat("\n").concat("\n");
    assert(text@ =~= full_entry(info@, *labels));
    text
}

/// Lays out a listing of namespaces under the given labels.
pub fn layout_namespaces(namespaces: &Namespaces, long: bool, labels: &ListLabels) -> (s: String)
    ensures
        s@ == listing(namespaces@, long, *labels),
{
    let n: usize = namespaces.len();
    if n == 0 {
        return String::new();
    }
    let mut text = layout_entry(namespaces.get(0), long, labels);
    assert(namespaces@.subrange(0, 1).len() == 1);
    let mut i: usize = 1;
    while i < n
        invariant
            1 <= i <= n,
            n == namespaces@.len(),
            text@ == listing(namespaces@.subrange(0, i as int), long, *labels),
        decreases n - i,
    {
        let entry = layout_entry(namespaces.get(i), long, labels);
        proof {
            let upto = namespaces@.subrange(0, i + 1);
            assert(upto.drop_last() =~= namespaces@.subrange(0, i as int));
            assert(upto.last() == namespaces@[i as int]);
        }
        text = text.concat("\n").concat(entry.as_str());
        i += 1;
    }
    assert(namespaces@.subrange(0, n as int) =~= namespaces@);
    text
}

/// `text` is the listing of the namespaces under some labels.
pub open spec fn is_listing(text: Seq<char>, list: Seq<NamespaceInfoView>, long: bool) -> bool {
    exists|labels: ListLabels| text == #[trigger] listing(list, long, labels)
}

/// The listing of namespaces: their names, one to a line, or their full
/// entries under labels in bold type.
pub fn format_namespaces(namespaces: &Namespaces, long: bool) -> (s: String)
    ensures
        is_listing(s@, namespaces@, long),
{
    let labels = ListLabels {
        status: bold_label("Status", LIST_LABEL_WIDTH),
        ciphersuite: bold_label("Ciphersuite", LIST_LABEL_WIDTH),
        root: bold_label("Root", LIST_LABEL_WIDTH),
        directory: bold_label("Directory", LIST_LABEL_WIDTH),
    };
    let text = layout_namespaces(namespaces, long, &labels);
    assert(text@ == listing(namespaces@, long, labels));
    text
}

/// The report of an audit. In short it is the text of the one outcome that
/// stands for the audit. In full it is laid out under labels in bold type,
/// with the time of the signature in whole seconds; a time beyond the range
/// of the calendar is a bad parameter.
pub fn format_audit_response(
    long: bool,
    signature: &SignatureResponse,
    signature_verification_status: &VerificationStatus,
    proof_verification_status: &VerificationStatus,
) -> (r: Result<String, PlexiError>)
    ensures
        !long ==> r is Ok && r->Ok_0@ == surfaced(
            signature_verification_status@,
            proof_verification_status@,
        ).text(),
        long ==> match formatted_utc_time((signature@.timestamp / 1000) as int, time_description()) {
            Some(time) => r is Ok && is_full_report(
                r->Ok_0@,
                signature@,
                signature_verification_status@,
                proof_verification_status@,
                time,
            ),
            None => r is Err && r->Err_0@ == ErrorView::BadParameter("timestamp"@),
        },
{
    if !long {
        return Ok(short_report(signature_verification_status, proof_verification_status));
    }
    let seconds: u64 = signature.timestamp() / 1000;
    let time = match utc_time_text(
        seconds as i64,
        "[year]-[month]-[day]T[hour]:[minute]:[second]Z",
    ) {
        Some(time) => time,
        None => {
            return Err(PlexiError::bad_parameter("timestamp"));
        },
    };
    let labels = ReportLabels {
        name: bold_label("Name", LABEL_WIDTH),
        ciphersuite: bold_label("Ciphersuite", LABEL_WIDTH),
        epoch: bold_label("Epoch height", LABEL_WIDTH),
        digest: bold_label("Epoch digest", LABEL_WIDTH),
        signature: bold_label("Signature", LABEL_WIDTH),
        signature_verification: bold_label("Signature verification", LABEL_WIDTH),
        proof_verification: bold_label("Proof verification", LABEL_WIDTH),
    };
    let text = layout_audit_response(
        signature,
        signature_verification_status,
        proof_verification_status,
        time.as_str(),
        &labels,
    );
    assert(text@ == full_report(
        signature@,
        signature_verification_status@,
        proof_verification_status@,
        time@,
        labels,
    ));
    assert(is_full_report(
        text@,
        signature@,
        signature_verification_status@,
        proof_verification_status@,
        time@,
    ));
    Ok(text)
}

} // verus!
