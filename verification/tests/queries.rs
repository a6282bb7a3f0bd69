use job_marketplace::contract::{
    execute_post_job, execute_submit_proposal, instantiate, query,
};
use job_marketplace::msg::{InstantiateMsg, QueryAnswer, QueryMsg};
use job_marketplace::state::MarketState;
use job_marketplace::ContractError;

fn market_with_one_job() -> MarketState {
    let (mut state, _resp) = instantiate("alice".to_string(), InstantiateMsg { admin: None });
    execute_post_job(
        &mut state,
        "alice".to_string(),
        7,
        "Build site".to_string(),
        "desc".to_string(),
        100,
    )
    .unwrap();
    state
}

#[test]
fn query_returns_stored_job_details() {
    let state = market_with_one_job();
    let answer = query(&state, QueryMsg::GetJobDetails { job_id: 0 }).unwrap();
    match answer {
        QueryAnswer::JobDetails(job) => {
            assert_eq!(job.poster, "alice");
            assert_eq!(job.title, "Build site");
            assert_eq!(job.budget, 100);
            assert_eq!(job.created_at, 7);
        }
        QueryAnswer::JobProposals(_) => panic!("details query answered with proposals"),
    }
}

#[test]
fn query_unknown_job_details_is_not_found() {
    let state = market_with_one_job();
    let r = query(&state, QueryMsg::GetJobDetails { job_id: 42 });
    assert_eq!(r, Err(ContractError::NotFound { job_id: 42 }));
}

#[test]
fn query_proposals_empty_when_none_submitted() {
    let state = market_with_one_job();
    // No proposals yet for an existing job: empty, not an error.
    let answer = query(&state, QueryMsg::GetJobProposals { job_id: 0 }).unwrap();
    assert_eq!(answer, QueryAnswer::JobProposals(Vec::new()));
    // An unknown job id also reads as empty at this layer.
    let answer = query(&state, QueryMsg::GetJobProposals { job_id: 42 }).unwrap();
    assert_eq!(answer, QueryAnswer::JobProposals(Vec::new()));
}

#[test]
fn query_returns_stored_proposals() {
    let mut state = market_with_one_job();
    execute_submit_proposal(&mut state, "bob".to_string(), 0, 80, "hi".to_string()).unwrap();
    execute_submit_proposal(&mut state, "carol".to_string(), 0, 60, "me too".to_string())
        .unwrap();
    let answer = query(&state, QueryMsg::GetJobProposals { job_id: 0 }).unwrap();
    match answer {
        QueryAnswer::JobProposals(proposals) => {
            assert_eq!(proposals.len(), 2);
            assert_eq!(proposals[0].freelancer, "bob");
            assert_eq!(proposals[0].bid_amount, 80);
            assert_eq!(proposals[1].freelancer, "carol");
            assert_eq!(proposals[1].cover_letter, "me too");
        }
        QueryAnswer::JobDetails(_) => panic!("proposals query answered with details"),
    }
}

#[test]
fn repeated_queries_return_identical_results() {
    let mut state = market_with_one_job();
    execute_submit_proposal(&mut state, "bob".to_string(), 0, 80, "hi".to_string()).unwrap();

    let first = query(&state, QueryMsg::GetJobDetails { job_id: 0 });
    let second = query(&state, QueryMsg::GetJobDetails { job_id: 0 });
    assert_eq!(first, second);

    let first = query(&state, QueryMsg::GetJobProposals { job_id: 0 });
    let second = query(&state, QueryMsg::GetJobProposals { job_id: 0 });
    assert_eq!(first, second);

    // The reads wrote nothing: the state still answers commands as before.
    assert_eq!(state.job_counter, 1);
    assert_eq!(state.get_job_proposals(0).len(), 1);
}

#[test]
fn direct_reads_match_query_dispatcher() {
    let mut state = market_with_one_job();
    execute_submit_proposal(&mut state, "bob".to_string(), 0, 80, "hi".to_string()).unwrap();

    let via_method = state.get_job_details(0).unwrap().clone();
    match query(&state, QueryMsg::GetJobDetails { job_id: 0 }).unwrap() {
        QueryAnswer::JobDetails(job) => assert_eq!(job, via_method),
        QueryAnswer::JobProposals(_) => panic!("details query answered with proposals"),
    }

    let via_method = state.get_job_proposals(0);
    match query(&state, QueryMsg::GetJobProposals { job_id: 0 }).unwrap() {
        QueryAnswer::JobProposals(proposals) => assert_eq!(proposals, via_method),
        QueryAnswer::JobDetails(_) => panic!("proposals query answered with details"),
    }
}
