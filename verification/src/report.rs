//! What an auditor keeps of a finished job: the report that it received, and
//! the last epoch that it verified.

use vstd::prelude::*;
use crate::epoch::Epoch;
use crate::response::{Report, ResponseView};

verus! {

#[verifier::external_type_specification]
#[verifier::external_body]
pub struct ExUuid(uuid::Uuid);

/// A report under the identifier that the auditor gave it.
#[derive(Debug)]
pub struct ReportResponse {
    id: uuid::Uuid,
    report: Report,
}

impl ReportResponse {
    /// The identifier of the report.
    pub closed spec fn spec_id(&self) -> uuid::Uuid {
        self.id
    }

    /// What the report says.
    pub closed spec fn spec_report(&self) -> ResponseView {
        self.report@
    }

    pub fn new(id: uuid::Uuid, report: Report) -> (response: Self)
        ensures
            response.spec_id() == id,
            response.spec_report() == report@,
    {
        Self { id, report }
    }

    pub fn id(&self) -> (id: uuid::Uuid)
        ensures
            id == self.spec_id(),
    {
        self.id
    }

    pub fn report(&self) -> (report: Report)
        ensures
            report@ == self.spec_report(),
    {
        self.report.clone()
    }
}

impl Clone for ReportResponse {
    fn clone(&self) -> (copy: Self)
        ensures
            copy.spec_id() == self.spec_id(),
            copy.spec_report() == self.spec_report(),
    {
        Self { id: self.id, report: self.report() }
    }
}

/// What the last verified epoch of a namespace says: the job that verified
/// it, the epoch, the digests before and at the epoch, and the time.
pub struct LastVerifiedEpochView {
    pub job_id: uuid::Uuid,
    pub epoch: u64,
    pub start_hash: Seq<u8>,
    pub end_hash: Seq<u8>,
    pub timestamp: u64,
}

/// The last epoch of a namespace that an auditor verified.
#[derive(Debug)]
pub struct LastVerifiedEpoch {
    job_id: uuid::Uuid,
    epoch: Epoch,
    start_hash: Vec<u8>,
    end_hash: Vec<u8>,
    timestamp: u64,
}

impl View for LastVerifiedEpoch {
    type V = LastVerifiedEpochView;

    closed spec fn view(&self) -> LastVerifiedEpochView {
        LastVerifiedEpochView {
            job_id: self.job_id,
            epoch: self.epoch@,
            start_hash: self.start_hash@,
            end_hash: self.end_hash@,
            timestamp: self.timestamp,
        }
    }
}

impl Clone for LastVerifiedEpoch {
    fn clone(&self) -> (copy: Self)
        ensures
            copy@ == self@,
    {
        Self {
            job_id: self.job_id,
            epoch: self.epoch,
            start_hash: self.start_hash.clone(),
            end_hash: self.end_hash.clone(),
            timestamp: self.timestamp,
        }
    }
}

impl LastVerifiedEpoch {
    pub fn new(
        job_id: uuid::Uuid,
        epoch: Epoch,
        start_hash: Vec<u8>,
        end_hash: Vec<u8>,
        timestamp: u64,
    ) -> (last: Self)
        ensures
            last@ == (LastVerifiedEpochView {
                job_id,
                epoch: epoch@,
                start_hash: start_hash@,
                end_hash: end_hash@,
                timestamp,
            }),
    {
        Self { job_id, epoch, start_hash, end_hash, timestamp }
    }

    pub fn job_id(&self) -> (id: uuid::Uuid)
        ensures
            id == self@.job_id,
    {
        self.job_id
    }

    pub fn epoch(&self) -> (e: Epoch)
        ensures
            e@ == self@.epoch,
    {
        self.epoch
    }

    pub fn start_hash(&self) -> (h: &[u8])
        ensures
            h@ == self@.start_hash,
    {
        self.start_hash.as_slice()
    }

    pub fn end_hash(&self) -> (h: &[u8])
        ensures
            h@ == self@.end_hash,
    {
        self.end_hash.as_slice()
    }

    pub fn timestamp(&self) -> (t: u64)
        ensures
            t == self@.timestamp,
    {
        self.timestamp
    }
}

} // verus!
