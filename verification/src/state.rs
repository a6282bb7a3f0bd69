//! The data model: jobs, proposals, and the persisted marketplace state,
//! together with the read-only query surface over it.

use std::collections::HashMap;
use vstd::prelude::*;

use crate::error::ContractError;

verus! {

broadcast use vstd::std_specs::hash::group_hash_axioms;

/// Lifecycle status of a job. `Cancelled` is a declared terminal state that
/// no implemented transition reaches; it is kept for forward API
/// compatibility.
#[derive(Clone, Copy, Debug, PartialEq, Eq, Structural)]
pub enum JobStatus {
    Open,
    InProgress,
    Completed,
    Cancelled,
}

/// One posted unit of work.
#[derive(Clone, Debug, PartialEq, Eq)]
pub struct Job {
    /// The identity that created the job; immutable after creation, and the
    /// sole authority to accept a proposal for it.
    pub poster: String,
    pub title: String,
    pub description: String,
    /// Non-negative integral amount; no upper bound is enforced.
    pub budget: u128,
    pub status: JobStatus,
    /// Set exactly once, on the transition to `InProgress`.
    pub assigned_freelancer: Option<String>,
    /// Logical creation time supplied by the host; immutable.
    pub created_at: u64,
}

/// One freelancer's bid against a specific job.
#[derive(Clone, Debug, PartialEq, Eq)]
pub struct Proposal {
    pub freelancer: String,
    pub bid_amount: u128,
    pub cover_letter: String,
}

/// The persisted contents of the marketplace: the job counter and the two
/// keyed collections. The host loads this state, runs one operation against
/// it, and commits the result atomically or discards it whole.
pub struct MarketState {
    /// Source of unique job ids: strictly increases by one on every
    /// successful creation, never decreases, never reuses a value.
    pub job_counter: u64,
    /// Jobs keyed by their id.
    pub jobs: HashMap<u64, Job>,
    /// Each job's proposals, in submission order, keyed by the job id. A
    /// missing entry reads as the empty sequence.
    pub proposals: HashMap<u64, Vec<Proposal>>,
}

impl MarketState {
    /// Every stored job id was allocated by the counter, and proposals are
    /// recorded only against stored jobs.
    pub open spec fn wf(self) -> bool {
        &&& forall|id: u64| #[trigger] self.jobs@.contains_key(id) ==> id < self.job_counter
        &&& forall|id: u64| #[trigger] self.proposals@.contains_key(id)
            ==> self.jobs@.contains_key(id)
    }

    pub open spec fn has_job(self, job_id: u64) -> bool {
        self.jobs@.contains_key(job_id)
    }

    pub open spec fn job(self, job_id: u64) -> Job {
        self.jobs@[job_id]
    }

    /// The proposal sequence stored for a job; absence reads as empty.
    pub open spec fn proposals_for(self, job_id: u64) -> Seq<Proposal> {
        if self.proposals@.contains_key(job_id) {
            self.proposals@[job_id]@
        } else {
            Seq::<Proposal>::empty()
        }
    }

    /// get-job-details: the stored job, or the store's missing-key failure if
    /// the id is unknown. Read-only: any observer may query.
    pub fn get_job_details(&self, job_id: u64) -> (r: Result<&Job, ContractError>)
        ensures
            self.has_job(job_id) ==> (r matches Ok(j) && *j == self.job(job_id)),
            !self.has_job(job_id) ==> (r matches Err(e) && e == (ContractError::NotFound {
                job_id,
            })),
    {
        match self.jobs.get(&job_id) {
            Some(job) => Ok(job),
            None => Err(ContractError::NotFound { job_id }),
        }
    }

    /// get-job-proposals: the stored proposal sequence for a job, or the
    /// empty sequence if none was recorded. An unknown job id is not an error
    /// here. Read-only: any observer may query.
    pub fn get_job_proposals(&self, job_id: u64) -> (r: Vec<Proposal>)
        ensures
            r@ == self.proposals_for(job_id),
    {
        match self.proposals.get(&job_id) {
            Some(stored) => clone_proposals(stored),
            None => Vec::new(),
        }
    }
}

/// An owned copy of a stored proposal, equal to the value it copies.
pub fn clone_proposal(p: &Proposal) -> (r: Proposal)
    ensures
        r == *p,
{
    Proposal {
        freelancer: p.freelancer.clone(),
        bid_amount: p.bid_amount,
        cover_letter: p.cover_letter.clone(),
    }
}

/// An owned copy of a stored proposal sequence, equal to the value it copies.
pub fn clone_proposals(v: &Vec<Proposal>) -> (r: Vec<Proposal>)
    ensures
        r@ == v@,
{
    let mut r: Vec<Proposal> = Vec::new();
    let mut i: usize = 0;
    while i < v.len()
        invariant
            i <= v.len(),
            r@ == v@.subrange(0, i as int),
        decreases v.len() - i,
    {
        r.push(clone_proposal(&v[i]));
        proof {
            assert(r@ =~= v@.subrange(0, i + 1 as int));
        }
        i = i + 1;
    }
    proof {
        assert(r@ =~= v@);
    }
    r
}

/// An owned copy of a stored job, equal to the value it copies.
pub fn clone_job(j: &Job) -> (r: Job)
    ensures
        r == *j,
{
    let assigned_freelancer: Option<String> = match &j.assigned_freelancer {
        Some(f) => Some(f.clone()),
        None => None,
    };
    Job {
        poster: j.poster.clone(),
        title: j.title.clone(),
        description: j.description.clone(),
        budget: j.budget,
        status: j.status,
        assigned_freelancer,
        created_at: j.created_at,
    }
}

} // verus!
