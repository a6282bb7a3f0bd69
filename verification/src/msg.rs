//! The wire-level request and response shapes: the one-time setup message,
//! the command surface, the query surface, and the structured outcome a
//! successful command returns.

use vstd::prelude::*;

use crate::state::{Job, Proposal};

verus! {

/// One-time setup message. The admin field is accepted for wire
/// compatibility but is neither stored nor consulted by any operation.
#[derive(Clone, Debug, PartialEq, Eq)]
pub struct InstantiateMsg {
    pub admin: Option<String>,
}

/// The command surface: each variant is one mutating operation.
#[derive(Clone, Debug, PartialEq, Eq)]
pub enum ExecuteMsg {
    PostJob { title: String, description: String, budget: u128 },
    SubmitProposal { job_id: u64, bid_amount: u128, cover_letter: String },
    AcceptProposal { job_id: u64, freelancer: String },
    CompleteJob { job_id: u64 },
}

/// The query surface: read-only projections of the stored entities.
#[derive(Clone, Debug, PartialEq, Eq)]
pub enum QueryMsg {
    GetJobDetails { job_id: u64 },
    GetJobProposals { job_id: u64 },
}

/// Observable attributes of a successful command, for the host's auditing:
/// the operation name, the affected job id, and the identity the operation
/// names (the admin at setup, the poster of a new job, the bidding or the
/// accepted freelancer, the completer).
#[derive(Clone, Debug, PartialEq, Eq)]
pub struct Response {
    pub method: String,
    pub job_id: Option<u64>,
    pub actor: Option<String>,
}

/// A query's result, handed to the host for encoding.
#[derive(Clone, Debug, PartialEq, Eq)]
pub enum QueryAnswer {
    JobDetails(Job),
    JobProposals(Vec<Proposal>),
}

} // verus!
