//! A persistent job-marketplace ledger: job postings, freelancer proposals,
//! and a lifecycle state machine that gates who may move a job between
//! states. The host environment dispatches one request at a time and commits
//! or discards the resulting state atomically; this crate holds the data
//! model, the transition rules, and the read-only query surface.

pub mod contract;
pub mod error;
pub mod msg;
pub mod state;

pub use contract::{execute, instantiate, query};
pub use error::ContractError;
pub use msg::{ExecuteMsg, InstantiateMsg, QueryAnswer, QueryMsg, Response};
pub use state::{Job, JobStatus, MarketState, Proposal};
