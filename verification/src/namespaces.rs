//! Namespaces: the logs that an auditor follows, each with its trust anchor
//! and its place in its life cycle.

use vstd::prelude::*;
use vstd::std_specs::iter::IteratorSpec;
use vstd::std_specs::slice::axiom_spec_slice_iter;
use vstd::std_specs::vec::axiom_spec_into_iter;
use crate::ciphersuite::Ciphersuite;
use crate::epoch::Epoch;
use crate::error::{ErrorView, PlexiError};
use crate::record::{merge_suite, merged_suite};
use crate::text::str_eq;

verus! {

/// The text of an optional string.
pub open spec fn optional_text(text: Option<String>) -> Option<Seq<char>> {
    match text {
        Some(t) => Some(t@),
        None => None,
    }
}

/// The text of an optional string slice.
pub open spec fn optional_str(text: Option<&str>) -> Option<Seq<char>> {
    match text {
        Some(t) => Some(t@),
        None => None,
    }
}

/// The number of an optional epoch.
pub open spec fn optional_epoch(epoch: Option<Epoch>) -> Option<u64> {
    match epoch {
        Some(e) => Some(e@),
        None => None,
    }
}

/// An optional string as a slice.
fn as_optional_str(text: &Option<String>) -> (r: Option<&str>)
    ensures
        optional_str(r) == optional_text(*text),
{
    match text {
        Some(t) => Some(t.as_str()),
        None => None,
    }
}

/// A copy of an optional string.
fn clone_optional_text(text: &Option<String>) -> (r: Option<String>)
    ensures
        optional_text(r) == optional_text(*text),
{
    match text {
        Some(t) => Some(t.clone()),
        None => None,
    }
}

/// Where a namespace stands in its life cycle.
#[derive(Clone, Copy, Debug, PartialEq, Eq, Structural)]
pub enum NamespaceStatus {
    /// The namespace is followed and has its trust anchor.
    Online,
    /// The namespace is new: the first root that is seen becomes its anchor.
    Initialization,
    /// The namespace is no longer followed.
    Disabled,
}

impl NamespaceStatus {
    /// The name of the status.
    pub open spec fn spec_name(self) -> Seq<char> {
        match self {
            NamespaceStatus::Disabled => "Disabled"@,
            NamespaceStatus::Initialization => "Initialization"@,
            NamespaceStatus::Online => "Online"@,
        }
    }

    /// The name of the status.
    pub fn to_string(&self) -> (s: String)
        ensures
            s@ == self.spec_name(),
    {
        match self {
            NamespaceStatus::Disabled => String::from_str("Disabled"),
            NamespaceStatus::Initialization => String::from_str("Initialization"),
            NamespaceStatus::Online => String::from_str("Online"),
        }
    }
}

/// What is known of a namespace when it is set up.
pub struct NamespaceView {
    pub name: Seq<char>,
    pub log_directory: Option<Seq<char>>,
    pub root: Option<Seq<char>>,
    pub ciphersuite: Ciphersuite,
}

/// A namespace as it is set up: its name, where its proofs are found, its
/// root as `<epoch>/<digest in hexadecimal>`, and its ciphersuite.
#[derive(Debug)]
pub struct Namespace {
    name: String,
    log_directory: Option<String>,
    root: Option<String>,
    suite: Ciphersuite,
}

impl View for Namespace {
    type V = NamespaceView;

    closed spec fn view(&self) -> NamespaceView {
        NamespaceView {
            name: self.name@,
            log_directory: optional_text(self.log_directory),
            root: optional_text(self.root),
            ciphersuite: self.suite,
        }
    }
}

impl Clone for Namespace {
    fn clone(&self) -> (copy: Self)
        ensures
            copy@ == self@,
    {
        Self {
            name: self.name.clone(),
            log_directory: clone_optional_text(&self.log_directory),
            root: clone_optional_text(&self.root),
            suite: self.suite,
        }
    }
}

impl Namespace {
    /// A namespace. Its ciphersuite may come under the current name or under
    /// the old one, `signature_version`; one of the two must be there, and
    /// the current name goes first.
    pub fn new(
        name: String,
        log_directory: Option<String>,
        root: Option<String>,
        signature_version: Option<Ciphersuite>,
        ciphersuite: Option<Ciphersuite>,
    ) -> (namespace: Self)
        requires
            ciphersuite is Some || signature_version is Some,
        ensures
            namespace@ == (NamespaceView {
                name: name@,
                log_directory: optional_text(log_directory),
                root: optional_text(root),
                ciphersuite: merged_suite(ciphersuite, signature_version)->Some_0,
            }),
    {
        let suite = match merge_suite(ciphersuite, signature_version) {
            Some(suite) => suite,
            None => unreached(),
        };
        Self { name, log_directory, root, suite }
    }

    pub fn name(&self) -> (s: &str)
        ensures
            s@ == self@.name,
    {
        self.name.as_str()
    }

    pub fn log_directory(&self) -> (d: Option<&str>)
        ensures
            optional_str(d) == self@.log_directory,
    {
        as_optional_str(&self.log_directory)
    }

    pub fn root(&self) -> (r: Option<&str>)
        ensures
            optional_str(r) == self@.root,
    {
        as_optional_str(&self.root)
    }

    /// The ciphersuite, under its old name.
    pub fn signature_version(&self) -> (c: &Ciphersuite)
        ensures
            *c == self@.ciphersuite,
    {
        &self.suite
    }

    pub fn ciphersuite(&self) -> (c: &Ciphersuite)
        ensures
            *c == self@.ciphersuite,
    {
        &self.suite
    }
}

/// What an auditor says of a namespace.
pub struct NamespaceInfoView {
    pub name: Seq<char>,
    pub log_directory: Option<Seq<char>>,
    pub root: Option<Seq<char>>,
    pub last_verified_epoch: Option<u64>,
    pub status: NamespaceStatus,
    pub reports_uri: Seq<char>,
    pub audits_uri: Seq<char>,
    pub ciphersuite: Ciphersuite,
}

/// A namespace as an auditor reports it: what it was set up with, its status,
/// the last epoch that was verified, and where its reports and audits are.
#[derive(Debug)]
pub struct NamespaceInfo {
    name: String,
    log_directory: Option<String>,
    root: Option<String>,
    last_verified_epoch: Option<Epoch>,
    status: NamespaceStatus,
    reports_uri: String,
    audits_uri: String,
    suite: Ciphersuite,
}

impl View for NamespaceInfo {
    type V = NamespaceInfoView;

    closed spec fn view(&self) -> NamespaceInfoView {
        NamespaceInfoView {
            name: self.name@,
            log_directory: optional_text(self.log_directory),
            root: optional_text(self.root),
            last_verified_epoch: optional_epoch(self.last_verified_epoch),
            status: self.status,
            reports_uri: self.reports_uri@,
            audits_uri: self.audits_uri@,
            ciphersuite: self.suite,
        }
    }
}

/// The path of the reports of the namespace `name`.
pub open spec fn reports_path(name: Seq<char>) -> Seq<char> {
    "/namespaces/"@ + name + "/reports"@
}

/// The path of the audits of the namespace `name`.
pub open spec fn audits_path(name: Seq<char>) -> Seq<char> {
    "/namespaces/"@ + name + "/audits"@
}

/// Whether a root that is observed for a namespace is to be taken as its
/// first epoch. A namespace without a root takes any while it initialises
/// and none after. A namespace with a root takes that root. Any other root
/// is left aside once the namespace is past initialisation; while it still
/// initialises, a second root is an error.
pub open spec fn first_epoch_decision(
    root: Option<Seq<char>>,
    status: NamespaceStatus,
    observed: Seq<char>,
) -> Result<bool, ErrorView> {
    match root {
        None => Ok(status == NamespaceStatus::Initialization),
        Some(recorded) => {
            if recorded == observed {
                Ok(true)
            } else if status != NamespaceStatus::Initialization {
                Ok(false)
            } else {
                Err(ErrorView::InvalidRoot)
            }
        },
    }
}

/// A namespace as it is exchanged. `signature_version` is the old name of
/// `ciphersuite`; either may be absent.
pub struct NamespaceInfoRecord {
    pub name: String,
    pub log_directory: Option<String>,
    pub root: Option<String>,
    pub last_verified_epoch: Option<Epoch>,
    pub status: NamespaceStatus,
    pub reports_uri: String,
    pub audits_uri: String,
    pub signature_version: Option<Ciphersuite>,
    pub ciphersuite: Option<Ciphersuite>,
}

impl Clone for NamespaceInfo {
    fn clone(&self) -> (copy: Self)
        ensures
            copy@ == self@,
    {
        Self {
            name: self.name.clone(),
            log_directory: clone_optional_text(&self.log_directory),
            root: clone_optional_text(&self.root),
            last_verified_epoch: self.last_verified_epoch,
            status: self.status,
            reports_uri: self.reports_uri.clone(),
            audits_uri: self.audits_uri.clone(),
            suite: self.suite,
        }
    }
}

impl NamespaceInfo {
    /// What an auditor says of a namespace that it has just taken up, in the
    /// given status: no epoch is verified yet.
    pub fn new(namespace: &Namespace, status: NamespaceStatus) -> (info: Self)
        ensures
            info@ == (NamespaceInfoView {
                name: namespace@.name,
                log_directory: namespace@.log_directory,
                root: namespace@.root,
                last_verified_epoch: None,
                status,
                reports_uri: reports_path(namespace@.name),
                audits_uri: audits_path(namespace@.name),
                ciphersuite: namespace@.ciphersuite,
            }),
    {
        Self {
            name: namespace.name.clone(),
            log_directory: clone_optional_text(&namespace.log_directory),
            root: clone_optional_text(&namespace.root),
            last_verified_epoch: None,
            status,
            reports_uri: String::from_str("/namespaces/").concat(namespace.name.as_str()).concat(
                "/reports",
            ),
            audits_uri: String::from_str("/namespaces/").concat(namespace.name.as_str()).concat(
                "/audits",
            ),
            suite: namespace.suite,
        }
    }

    /// Reads a namespace from a record. A record without a ciphersuite under
    /// either name misses that parameter.
    pub fn from_record(record: NamespaceInfoRecord) -> (r: Result<Self, PlexiError>)
        ensures
            match merged_suite(record.ciphersuite, record.signature_version) {
                Some(suite) => r is Ok && r->Ok_0@ == (NamespaceInfoView {
                    name: record.name@,
                    log_directory: optional_text(record.log_directory),
                    root: optional_text(record.root),
                    last_verified_epoch: optional_epoch(record.last_verified_epoch),
                    status: record.status,
                    reports_uri: record.reports_uri@,
                    audits_uri: record.audits_uri@,
                    ciphersuite: suite,
                }),
                None => r is Err && r->Err_0@ == ErrorView::MissingParameter("ciphersuite"@),
            },
    {
        match merge_suite(record.ciphersuite, record.signature_version) {
            Some(suite) => Ok(
                Self {
                    name: record.name,
                    log_directory: record.log_directory,
                    root: record.root,
                    last_verified_epoch: record.last_verified_epoch,
                    status: record.status,
                    reports_uri: record.reports_uri,
                    audits_uri: record.audits_uri,
                    suite,
                },
            ),
            None => Err(PlexiError::missing_parameter("ciphersuite")),
        }
    }

    /// Writes the namespace as a record, with the ciphersuite under both
    /// names.
    pub fn to_record(&self) -> (record: NamespaceInfoRecord)
        ensures
            record.name@ == self@.name,
            optional_text(record.log_directory) == self@.log_directory,
            optional_text(record.root) == self@.root,
            optional_epoch(record.last_verified_epoch) == self@.last_verified_epoch,
            record.status == self@.status,
            record.reports_uri@ == self@.reports_uri,
            record.audits_uri@ == self@.audits_uri,
            record.signature_version == Some(self@.ciphersuite),
            record.ciphersuite == Some(self@.ciphersuite),
    {
        NamespaceInfoRecord {
            name: self.name.clone(),
            log_directory: clone_optional_text(&self.log_directory),
            root: clone_optional_text(&self.root),
            last_verified_epoch: self.last_verified_epoch,
            status: self.status,
            reports_uri: self.reports_uri.clone(),
            audits_uri: self.audits_uri.clone(),
            signature_version: Some(self.suite),
            ciphersuite: Some(self.suite),
        }
    }

    pub fn name(&self) -> (s: &str)
        ensures
            s@ == self@.name,
    {
        self.name.as_str()
    }

    pub fn log_directory(&self) -> (d: Option<&str>)
        ensures
            optional_str(d) == self@.log_directory,
    {
        as_optional_str(&self.log_directory)
    }

    pub fn root(&self) -> (r: Option<&str>)
        ensures
            optional_str(r) == self@.root,
    {
        as_optional_str(&self.root)
    }

    pub fn set_root(&mut self, root: &str)
        ensures
            final(self)@ == (NamespaceInfoView { root: Some(root@), ..old(self)@ }),
    {
        self.root = Some(String::from_str(root));
    }

    pub fn status(&self) -> (s: NamespaceStatus)
        ensures
            s == self@.status,
    {
        self.status
    }

    pub fn set_status(&mut self, status: NamespaceStatus)
        ensures
            final(self)@ == (NamespaceInfoView { status, ..old(self)@ }),
    {
        self.status = status;
    }

    pub fn reports_uri(&self) -> (s: &str)
        ensures
            s@ == self@.reports_uri,
    {
        self.reports_uri.as_str()
    }

    pub fn audits_uri(&self) -> (s: &str)
        ensures
            s@ == self@.audits_uri,
    {
        self.audits_uri.as_str()
    }

    /// The ciphersuite, under its old name.
    pub fn signature_version(&self) -> (c: Ciphersuite)
        ensures
            c == self@.ciphersuite,
    {
        self.suite
    }

    pub fn ciphersuite(&self) -> (c: Ciphersuite)
        ensures
            c == self@.ciphersuite,
    {
        self.suite
    }

    /// The last epoch that was verified, if any was.
    pub fn last_verified_epoch(&self) -> (e: Option<Epoch>)
        ensures
            optional_epoch(e) == self@.last_verified_epoch,
    {
        self.last_verified_epoch
    }

    pub fn set_last_verified_epoch(&mut self, last_verified_epoch: Option<Epoch>)
        ensures
            final(self)@ == (NamespaceInfoView {
                last_verified_epoch: optional_epoch(last_verified_epoch),
                ..old(self)@
            }),
    {
        self.last_verified_epoch = last_verified_epoch;
    }

    /// Whether the root `message_root`, observed for this namespace, is to be
    /// taken as its first epoch.
    pub fn is_first_epoch(&self, message_root: &str) -> (r: Result<bool, PlexiError>)
        ensures
            match first_epoch_decision(self@.root, self@.status, message_root@) {
                Ok(b) => r is Ok && r->Ok_0 == b,
                Err(e) => r is Err && r->Err_0@ == e,
            },
    {
        let root = match self.root() {
            Some(root) => root,
            None => {
                return Ok(self.status == NamespaceStatus::Initialization);
            },
        };
        if str_eq(root, message_root) {
            Ok(true)
        } else if self.status != NamespaceStatus::Initialization {
            Ok(false)
        } else {
            Err(PlexiError::InvalidRoot)
        }
    }
}

/// A list of namespaces, in the order in which they were added.
#[derive(Debug)]
pub struct Namespaces {
    namespaces: Vec<NamespaceInfo>,
}

impl View for Namespaces {
    type V = Seq<NamespaceInfoView>;

    closed spec fn view(&self) -> Seq<NamespaceInfoView> {
        self.namespaces.deep_view()
    }
}

impl DeepView for NamespaceInfo {
    type V = NamespaceInfoView;

    open spec fn deep_view(&self) -> NamespaceInfoView {
        self@
    }
}

impl Clone for Namespaces {
    fn clone(&self) -> (copy: Self)
        ensures
            copy@ == self@,
    {
        let mut namespaces: Vec<NamespaceInfo> = Vec::new();
        let mut i: usize = 0;
        while i < self.namespaces.len()
            invariant
                i <= self.namespaces.len(),
                namespaces.len() == i,
                forall|k: int| 0 <= k < i ==> namespaces[k]@ == self.namespaces[k]@,
            decreases self.namespaces.len() - i,
        {
            namespaces.push(self.namespaces[i].clone());
            i += 1;
        }
        assert(namespaces.deep_view() =~= self.namespaces.deep_view());
        Self { namespaces }
    }
}

impl IntoIterator for Namespaces {
    type Item = NamespaceInfo;

    type IntoIter = std::vec::IntoIter<NamespaceInfo>;

    fn into_iter(self) -> (it: std::vec::IntoIter<NamespaceInfo>)
        ensures
            it.remaining().len() == self@.len(),
            forall|i: int| 0 <= i < self@.len() ==> (#[trigger] it.remaining()[i])@ == self@[i],
    {
        broadcast use axiom_spec_into_iter;

        self.namespaces.into_iter()
    }
}

impl Namespaces {
    /// The empty list.
    pub fn new() -> (list: Self)
        ensures
            list@ == Seq::<NamespaceInfoView>::empty(),
    {
        let list = Self { namespaces: Vec::new() };
        assert(list.namespaces.deep_view() =~= Seq::empty());
        list
    }

    /// Adds a namespace at the end.
    pub fn push(&mut self, namespace: NamespaceInfo)
        ensures
            final(self)@ == old(self)@.push(namespace@),
    {
        self.namespaces.push(namespace);
        assert(self.namespaces.deep_view() =~= old(self).namespaces.deep_view().push(namespace@));
    }

    /// The number of namespaces.
    pub fn len(&self) -> (n: usize)
        ensures
            n == self@.len(),
    {
        self.namespaces.len()
    }

    /// The namespace at place `i`.
    pub fn get(&self, i: usize) -> (info: &NamespaceInfo)
        requires
            i < self@.len(),
        ensures
            info@ == self@[i as int],
    {
        &self.namespaces[i]
    }

    /// The namespaces, first to last.
    pub fn as_slice(&self) -> (list: &[NamespaceInfo])
        ensures
            list.deep_view() == self@,
    {
        let list = self.namespaces.as_slice();
        assert(list.deep_view() =~= self.namespaces.deep_view());
        list
    }

    /// An iterator over the namespaces, first to last.
    pub fn iter(&self) -> (it: std::slice::Iter<'_, NamespaceInfo>)
        ensures
            it.remaining().len() == self@.len(),
            forall|i: int| 0 <= i < self@.len() ==> (#[trigger] it.remaining()[i])@ == self@[i],
    {
        broadcast use axiom_spec_slice_iter;

        self.namespaces.as_slice().iter()
    }
}

impl Default for Namespaces {
    fn default() -> (list: Self)
        ensures
            list@ == Seq::<NamespaceInfoView>::empty(),
    {
        Self::new()
    }
}

} // verus!
