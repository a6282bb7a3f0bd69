//! The lifecycle engine: the state machine over `{Open, InProgress,
//! Completed, Cancelled}` and the authorization rules that guard every
//! transition. Each operation validates all its preconditions before writing
//! anything, so a rejected operation leaves the state exactly as it was.
//!
//! Each operation's full behaviour is captured by a transition predicate
//! (`post_job_transition` and its siblings), stated once and ensured both by
//! the operation itself and by the `execute` dispatcher.

use std::collections::HashMap;
use vstd::prelude::*;

use crate::error::{
    msg_cover_letter_empty, msg_job_not_in_progress, msg_job_not_open,
    msg_job_not_open_for_proposals, msg_title_empty, ContractError,
};
use crate::msg::{ExecuteMsg, InstantiateMsg, QueryAnswer, QueryMsg, Response};
use crate::state::{clone_job, Job, JobStatus, MarketState, Proposal};

verus! {

broadcast use vstd::std_specs::hash::group_hash_axioms;

/// The job a successful creation stores: owned by `sender`, open, unassigned,
/// stamped with the host's logical creation time.
pub open spec fn new_job(
    sender: String,
    created_at: u64,
    title: String,
    description: String,
    budget: u128,
) -> Job {
    Job {
        poster: sender,
        title: title,
        description: description,
        budget: budget,
        status: JobStatus::Open,
        assigned_freelancer: None,
        created_at: created_at,
    }
}

/// The stored job after its proposal from `freelancer` is accepted: the
/// status moves to `InProgress`, the freelancer is assigned, and every other
/// field is kept.
pub open spec fn accepted_job(job: Job, freelancer: String) -> Job {
    Job {
        poster: job.poster,
        title: job.title,
        description: job.description,
        budget: job.budget,
        status: JobStatus::InProgress,
        assigned_freelancer: Some(freelancer),
        created_at: job.created_at,
    }
}

/// The stored job after completion: the status moves to `Completed` and every
/// other field is kept.
pub open spec fn completed_job(job: Job) -> Job {
    Job {
        poster: job.poster,
        title: job.title,
        description: job.description,
        budget: job.budget,
        status: JobStatus::Completed,
        assigned_freelancer: job.assigned_freelancer,
        created_at: job.created_at,
    }
}

/// Whether `sender` is the job's assigned freelancer; false when no
/// freelancer is assigned.
pub open spec fn assigned_to(job: Job, sender: Seq<char>) -> bool {
    match job.assigned_freelancer {
        Some(f) => f@ == sender,
        None => false,
    }
}

/// create-job, in full: an empty title is rejected with `InvalidInput` and
/// changes nothing; otherwise the next counter value becomes the new job's
/// id, the counter increases by exactly one, the fresh open job is stored,
/// no proposal sequence is touched, and the response names the operation,
/// the new id, and the poster.
pub open spec fn post_job_transition(
    pre: MarketState,
    post: MarketState,
    sender: String,
    created_at: u64,
    title: String,
    description: String,
    budget: u128,
    r: Result<Response, ContractError>,
) -> bool {
    if title@.len() == 0 {
        &&& post == pre
        &&& r matches Err(e)
        &&& e matches ContractError::InvalidInput { error }
        &&& error@ == msg_title_empty()
    } else {
        &&& post.job_counter == pre.job_counter + 1
        &&& post.jobs@ == pre.jobs@.insert(
            pre.job_counter,
            new_job(sender, created_at, title, description, budget),
        )
        &&& post.proposals == pre.proposals
        &&& r matches Ok(resp)
        &&& resp.method@ == "post_job"@
        &&& resp.job_id == Some(pre.job_counter)
        &&& resp.actor == Some(sender)
    }
}

/// submit-proposal, in full: an empty cover letter is rejected with
/// `InvalidInput`; an unknown job id with the store's missing-key failure; a
/// job not `Open` with `InvalidInput`. Otherwise the new proposal is appended
/// to that job's sequence with every prior entry kept unchanged, every other
/// job's sequence is untouched, and the response names the operation, the
/// job, and the bidding freelancer. The bid amount is accepted without
/// comparison against the job's budget, as the lax policy stands.
pub open spec fn submit_proposal_transition(
    pre: MarketState,
    post: MarketState,
    sender: String,
    job_id: u64,
    bid_amount: u128,
    cover_letter: String,
    r: Result<Response, ContractError>,
) -> bool {
    if cover_letter@.len() == 0 {
        &&& post == pre
        &&& r matches Err(e)
        &&& e matches ContractError::InvalidInput { error }
        &&& error@ == msg_cover_letter_empty()
    } else if !pre.has_job(job_id) {
        &&& post == pre
        &&& r matches Err(e)
        &&& e == (ContractError::NotFound { job_id })
    } else if !(pre.job(job_id).status is Open) {
        &&& post == pre
        &&& r matches Err(e)
        &&& e matches ContractError::InvalidInput { error }
        &&& error@ == msg_job_not_open_for_proposals()
    } else {
        &&& post.job_counter == pre.job_counter
        &&& post.jobs == pre.jobs
        &&& post.proposals_for(job_id) == pre.proposals_for(job_id).push(
            Proposal { freelancer: sender, bid_amount: bid_amount, cover_letter: cover_letter },
        )
        &&& forall|other: u64|
            other != job_id ==> post.proposals_for(other) == pre.proposals_for(other)
        &&& r matches Ok(resp)
        &&& resp.method@ == "submit_proposal"@
        &&& resp.job_id == Some(job_id)
        &&& resp.actor == Some(sender)
    }
}

/// accept-proposal, in full: an unknown job id fails with the store's
/// missing-key failure; a caller other than the poster with `Unauthorized`; a
/// job not `Open` with `InvalidInput`. Otherwise the job moves to
/// `InProgress` with the named freelancer assigned (taken as given: it is not
/// checked against the job's proposal sequence), every other job and all
/// proposals are untouched, and the response names the operation, the job,
/// and the accepted freelancer.
pub open spec fn accept_proposal_transition(
    pre: MarketState,
    post: MarketState,
    sender: String,
    job_id: u64,
    freelancer: String,
    r: Result<Response, ContractError>,
) -> bool {
    if !pre.has_job(job_id) {
        &&& post == pre
        &&& r matches Err(e)
        &&& e == (ContractError::NotFound { job_id })
    } else if pre.job(job_id).poster@ != sender@ {
        &&& post == pre
        &&& r matches Err(e)
        &&& e == (ContractError::Unauthorized {})
    } else if !(pre.job(job_id).status is Open) {
        &&& post == pre
        &&& r matches Err(e)
        &&& e matches ContractError::InvalidInput { error }
        &&& error@ == msg_job_not_open()
    } else {
        &&& post.job_counter == pre.job_counter
        &&& post.proposals == pre.proposals
        &&& post.jobs@ == pre.jobs@.insert(job_id, accepted_job(pre.job(job_id), freelancer))
        &&& r matches Ok(resp)
        &&& resp.method@ == "accept_proposal"@
        &&& resp.job_id == Some(job_id)
        &&& resp.actor == Some(freelancer)
    }
}

/// complete-job, in full: an unknown job id fails with the store's
/// missing-key failure; a caller other than the assigned freelancer — in
/// particular any caller when no freelancer is assigned — with
/// `Unauthorized`; a job not `InProgress` with `InvalidInput`. Otherwise the
/// job moves to `Completed` with every other field kept, every other job and
/// all proposals are untouched, and the response names the operation, the
/// job, and the completing freelancer.
pub open spec fn complete_job_transition(
    pre: MarketState,
    post: MarketState,
    sender: String,
    job_id: u64,
    r: Result<Response, ContractError>,
) -> bool {
    if !pre.has_job(job_id) {
        &&& post == pre
        &&& r matches Err(e)
        &&& e == (ContractError::NotFound { job_id })
    } else if !assigned_to(pre.job(job_id), sender@) {
        &&& post == pre
        &&& r matches Err(e)
        &&& e == (ContractError::Unauthorized {})
    } else if !(pre.job(job_id).status is InProgress) {
        &&& post == pre
        &&& r matches Err(e)
        &&& e matches ContractError::InvalidInput { error }
        &&& error@ == msg_job_not_in_progress()
    } else {
        &&& post.job_counter == pre.job_counter
        &&& post.proposals == pre.proposals
        &&& post.jobs@ == pre.jobs@.insert(job_id, completed_job(pre.job(job_id)))
        &&& r matches Ok(resp)
        &&& resp.method@ == "complete_job"@
        &&& resp.job_id == Some(job_id)
        &&& resp.actor == Some(sender)
    }
}

/// One-time setup: a fresh store with the job counter at zero, no jobs, and
/// no proposals. The message's admin field is accepted but not stored.
pub fn instantiate(sender: String, msg: InstantiateMsg) -> (r: (MarketState, Response))
    ensures
        r.0.wf(),
        r.0.job_counter == 0,
        forall|job_id: u64| !r.0.has_job(job_id),
        forall|job_id: u64| r.0.proposals_for(job_id) == Seq::<Proposal>::empty(),
        r.1.method@ == "instantiate"@,
        r.1.job_id is None,
        r.1.actor == Some(sender),
{
    let state = MarketState {
        job_counter: 0,
        jobs: HashMap::new(),
        proposals: HashMap::new(),
    };
    let response = Response {
        method: "instantiate".to_owned(),
        job_id: None,
        actor: Some(sender),
    };
    (state, response)
}

/// create-job: allocate the next id, persist a fresh open job under it, and
/// return the id and the observable attributes.
pub fn execute_post_job(
    state: &mut MarketState,
    sender: String,
    created_at: u64,
    title: String,
    description: String,
    budget: u128,
) -> (r: Result<Response, ContractError>)
    requires
        old(state).wf(),
        old(state).job_counter < u64::MAX,
    ensures
        final(state).wf(),
        post_job_transition(
            *old(state),
            *final(state),
            sender,
            created_at,
            title,
            description,
            budget,
            r,
        ),
{
    if title.as_str().is_empty() {
        return Err(ContractError::InvalidInput { error: "Title cannot be empty".to_owned() });
    }

    let job_id: u64 = state.job_counter;
    state.job_counter = job_id + 1;

    let job = Job {
        poster: sender.clone(),
        title,
        description,
        budget,
        status: JobStatus::Open,
        assigned_freelancer: None,
        created_at,
    };
    state.jobs.insert(job_id, job);

    Ok(Response {
        method: "post_job".to_owned(),
        job_id: Some(job_id),
        actor: Some(sender),
    })
}

/// submit-proposal: append a bid to an open job's proposal sequence, creating
/// the sequence if it is absent and keeping every prior entry unchanged.
pub fn execute_submit_proposal(
    state: &mut MarketState,
    sender: String,
    job_id: u64,
    bid_amount: u128,
    cover_letter: String,
) -> (r: Result<Response, ContractError>)
    requires
        old(state).wf(),
    ensures
        final(state).wf(),
        submit_proposal_transition(
            *old(state),
            *final(state),
            sender,
            job_id,
            bid_amount,
            cover_letter,
            r,
        ),
{
    if cover_letter.as_str().is_empty() {
        return Err(ContractError::InvalidInput {
            error: "Cover letter cannot be empty".to_owned(),
        });
    }

    let status: JobStatus = match state.jobs.get(&job_id) {
        None => {
            return Err(ContractError::NotFound { job_id });
        },
        Some(job) => job.status,
    };
    if !(status == JobStatus::Open) {
        return Err(ContractError::InvalidInput {
            error: "Job is not open for proposals".to_owned(),
        });
    }

    let mut stored: Vec<Proposal> = match state.proposals.remove(&job_id) {
        None => Vec::new(),
        Some(v) => v,
    };
    stored.push(Proposal { freelancer: sender.clone(), bid_amount, cover_letter });
    state.proposals.insert(job_id, stored);

    Ok(Response {
        method: "submit_proposal".to_owned(),
        job_id: Some(job_id),
        actor: Some(sender),
    })
}

/// accept-proposal: the poster moves an open job to `InProgress` and assigns
/// the named freelancer.
pub fn execute_accept_proposal(
    state: &mut MarketState,
    sender: String,
    job_id: u64,
    freelancer: String,
) -> (r: Result<Response, ContractError>)
    requires
        old(state).wf(),
    ensures
        final(state).wf(),
        accept_proposal_transition(*old(state), *final(state), sender, job_id, freelancer, r),
{
    let job = match state.jobs.get(&job_id) {
        None => {
            return Err(ContractError::NotFound { job_id });
        },
        Some(job) => job,
    };

    if !(job.poster == sender) {
        return Err(ContractError::Unauthorized {});
    }
    if !(job.status == JobStatus::Open) {
        return Err(ContractError::InvalidInput { error: "Job is not open".to_owned() });
    }

    let updated = Job {
        poster: job.poster.clone(),
        title: job.title.clone(),
        description: job.description.clone(),
        budget: job.budget,
        status: JobStatus::InProgress,
        assigned_freelancer: Some(freelancer.clone()),
        created_at: job.created_at,
    };
    state.jobs.insert(job_id, updated);

    Ok(Response {
        method: "accept_proposal".to_owned(),
        job_id: Some(job_id),
        actor: Some(freelancer),
    })
}

/// complete-job: the assigned freelancer moves a job in progress to
/// `Completed`.
pub fn execute_complete_job(state: &mut MarketState, sender: String, job_id: u64) -> (r: Result<
    Response,
    ContractError,
>)
    requires
        old(state).wf(),
    ensures
        final(state).wf(),
        complete_job_transition(*old(state), *final(state), sender, job_id, r),
{
    let job = match state.jobs.get(&job_id) {
        None => {
            return Err(ContractError::NotFound { job_id });
        },
        Some(job) => job,
    };

    let is_assignee: bool = match &job.assigned_freelancer {
        None => false,
        Some(f) => *f == sender,
    };
    if !is_assignee {
        return Err(ContractError::Unauthorized {});
    }
    if !(job.status == JobStatus::InProgress) {
        return Err(ContractError::InvalidInput { error: "Job is not in progress".to_owned() });
    }

    let updated = Job {
        poster: job.poster.clone(),
        title: job.title.clone(),
        description: job.description.clone(),
        budget: job.budget,
        status: JobStatus::Completed,
        assigned_freelancer: clone_assignee(&job.assigned_freelancer),
        created_at: job.created_at,
    };
    state.jobs.insert(job_id, updated);

    Ok(Response {
        method: "complete_job".to_owned(),
        job_id: Some(job_id),
        actor: Some(sender),
    })
}

/// An owned copy of an optional identity, equal to the value it copies.
fn clone_assignee(a: &Option<String>) -> (r: Option<String>)
    ensures
        r == *a,
{
    match a {
        Some(f) => Some(f.clone()),
        None => None,
    }
}

/// What `execute` does for each command: exactly the corresponding
/// operation's transition, with the host's logical time as the creation time.
pub open spec fn execute_transition(
    pre: MarketState,
    post: MarketState,
    sender: String,
    env_time: u64,
    msg: ExecuteMsg,
    r: Result<Response, ContractError>,
) -> bool {
    match msg {
        ExecuteMsg::PostJob { title, description, budget } => post_job_transition(
            pre,
            post,
            sender,
            env_time,
            title,
            description,
            budget,
            r,
        ),
        ExecuteMsg::SubmitProposal { job_id, bid_amount, cover_letter } =>
            submit_proposal_transition(pre, post, sender, job_id, bid_amount, cover_letter, r),
        ExecuteMsg::AcceptProposal { job_id, freelancer } => accept_proposal_transition(
            pre,
            post,
            sender,
            job_id,
            freelancer,
            r,
        ),
        ExecuteMsg::CompleteJob { job_id } => complete_job_transition(pre, post, sender, job_id, r),
    }
}

/// The command dispatcher: routes one typed request to its operation.
pub fn execute(state: &mut MarketState, env_time: u64, sender: String, msg: ExecuteMsg) -> (r:
    Result<Response, ContractError>)
    requires
        old(state).wf(),
        msg is PostJob ==> old(state).job_counter < u64::MAX,
    ensures
        final(state).wf(),
        execute_transition(*old(state), *final(state), sender, env_time, msg, r),
{
    match msg {
        ExecuteMsg::PostJob { title, description, budget } => execute_post_job(
            state,
            sender,
            env_time,
            title,
            description,
            budget,
        ),
        ExecuteMsg::SubmitProposal { job_id, bid_amount, cover_letter } =>
            execute_submit_proposal(state, sender, job_id, bid_amount, cover_letter),
        ExecuteMsg::AcceptProposal { job_id, freelancer } => execute_accept_proposal(
            state,
            sender,
            job_id,
            freelancer,
        ),
        ExecuteMsg::CompleteJob { job_id } => execute_complete_job(state, sender, job_id),
    }
}

/// What `query` returns for each request: the stored job for
/// get-job-details, with the store's missing-key failure for an unknown id;
/// the stored proposal sequence (possibly empty, and empty for an unknown
/// id) for get-job-proposals.
pub open spec fn query_result(
    s: MarketState,
    msg: QueryMsg,
    r: Result<QueryAnswer, ContractError>,
) -> bool {
    match msg {
        QueryMsg::GetJobDetails { job_id } => {
            if s.has_job(job_id) {
                &&& r matches Ok(a)
                &&& a matches QueryAnswer::JobDetails(j)
                &&& j == s.job(job_id)
            } else {
                &&& r matches Err(e)
                &&& e == (ContractError::NotFound { job_id })
            }
        },
        QueryMsg::GetJobProposals { job_id } => {
            &&& r matches Ok(a)
            &&& a matches QueryAnswer::JobProposals(v)
            &&& v@ == s.proposals_for(job_id)
        },
    }
}

/// Law: the counter hands out ids consecutively and never reuses one. A
/// successful creation returns the counter's current value as the new id —
/// an id no stored job held before — and moves the counter up by exactly
/// one; every failed operation and every other command leaves the counter
/// where it was. Over any sequence of commands the successful creations
/// therefore return exactly 0, 1, 2, ... in call order.
pub proof fn lemma_counter_monotonic(
    pre: MarketState,
    post: MarketState,
    sender: String,
    env_time: u64,
    msg: ExecuteMsg,
    r: Result<Response, ContractError>,
)
    requires
        pre.wf(),
        execute_transition(pre, post, sender, env_time, msg, r),
    ensures
        msg is PostJob && r is Ok ==> {
            &&& post.job_counter == pre.job_counter + 1
            &&& (r matches Ok(resp) && resp.job_id == Some(pre.job_counter))
            &&& !pre.has_job(pre.job_counter)
            &&& post.has_job(pre.job_counter)
        },
        !(msg is PostJob && r is Ok) ==> post.job_counter == pre.job_counter,
{
}

/// Law: proposals accumulate append-only. A successful submission makes the
/// job's stored sequence exactly one entry longer, the new entry carries the
/// bidding freelancer, the bid, and the cover letter, every prior entry is
/// kept unchanged at its position, and every other job's sequence is left
/// untouched.
pub proof fn lemma_proposals_append_only(
    pre: MarketState,
    post: MarketState,
    sender: String,
    job_id: u64,
    bid_amount: u128,
    cover_letter: String,
    r: Result<Response, ContractError>,
)
    requires
        submit_proposal_transition(pre, post, sender, job_id, bid_amount, cover_letter, r),
        r is Ok,
    ensures
        post.proposals_for(job_id).len() == pre.proposals_for(job_id).len() + 1,
        post.proposals_for(job_id).last() == (Proposal {
            freelancer: sender,
            bid_amount: bid_amount,
            cover_letter: cover_letter,
        }),
        forall|i: int|
            0 <= i < pre.proposals_for(job_id).len() ==> post.proposals_for(job_id)[i]
                == pre.proposals_for(job_id)[i],
        forall|other: u64| other != job_id ==> post.proposals_for(other) == pre.proposals_for(
            other,
        ),
{
}

/// Law: queries are functions of the state alone. Both queries take the
/// state by shared borrow, so no call can mutate it; and any two results
/// that `query` may return for the same state and the same request agree —
/// the same job record, or the same proposal sequence.
pub proof fn lemma_query_deterministic(
    s: MarketState,
    msg: QueryMsg,
    r1: Result<QueryAnswer, ContractError>,
    r2: Result<QueryAnswer, ContractError>,
)
    requires
        query_result(s, msg, r1),
        query_result(s, msg, r2),
    ensures
        r1 is Ok <==> r2 is Ok,
        r1 matches Ok(QueryAnswer::JobDetails(j1)) ==> (r2 matches Ok(QueryAnswer::JobDetails(j2))
            && j1 == j2),
        r1 matches Ok(QueryAnswer::JobProposals(v1)) ==> (r2 matches Ok(
            QueryAnswer::JobProposals(v2),
        ) && v1@ == v2@),
        r1 is Err ==> r1 == r2,
{
}

/// The query dispatcher: read-only, no authorization checks — any observer
/// may query, and no call through here changes the state.
pub fn query(state: &MarketState, msg: QueryMsg) -> (r: Result<QueryAnswer, ContractError>)
    ensures
        query_result(*state, msg, r),
{
    match msg {
        QueryMsg::GetJobDetails { job_id } => {
            match state.get_job_details(job_id) {
                Ok(job) => Ok(QueryAnswer::JobDetails(clone_job(job))),
                Err(e) => Err(e),
            }
        },
        QueryMsg::GetJobProposals { job_id } => {
            Ok(QueryAnswer::JobProposals(state.get_job_proposals(job_id)))
        },
    }
}

} // verus!
