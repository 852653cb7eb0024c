use preflight::error::PreflightError;
use preflight::execute::{
    execute_txs, start_execution, ExecuteAction, ExecuteEvent, ExecuteState, MAX_ITERATIONS,
};

fn incomplete_round(state: ExecuteState, optimistic: bool) -> ExecuteState {
    let (state, action) = execute_txs(state, ExecuteEvent::Db(true));
    assert_eq!(action, ExecuteAction::Execute { optimistic });
    let (state, action) = execute_txs(state, ExecuteEvent::Executed(Ok(()), true));
    assert_eq!(action, ExecuteAction::Fetch);
    let (state, action) = execute_txs(state, ExecuteEvent::Fetched(false));
    assert_eq!(action, ExecuteAction::LookAtDb);
    state
}

#[test]
fn one_complete_fetch_is_enough() {
    let (state, action) = start_execution();
    assert_eq!(action, ExecuteAction::LookAtDb);
    assert_eq!(state, ExecuteState::Ready(0));
    let (state, action) = execute_txs(state, ExecuteEvent::Db(true));
    assert_eq!(action, ExecuteAction::Execute { optimistic: true });
    let (state, action) = execute_txs(state, ExecuteEvent::Executed(Ok(()), true));
    assert_eq!(action, ExecuteAction::Fetch);
    assert_eq!(
        execute_txs(state, ExecuteEvent::Fetched(true)),
        (ExecuteState::Finished, ExecuteAction::Done(0))
    );
}

#[test]
fn incomplete_rounds_go_on() {
    let (mut state, _) = start_execution();
    for round in 0..5 {
        assert_eq!(state, ExecuteState::Ready(round));
        state = incomplete_round(state, true);
    }
    assert_eq!(state, ExecuteState::Ready(5));
}

#[test]
fn first_complete_fetch_ends_execution() {
    let (mut state, _) = start_execution();
    for _ in 0..3 {
        state = incomplete_round(state, true);
    }
    let (state, _) = execute_txs(state, ExecuteEvent::Db(true));
    let (state, _) = execute_txs(state, ExecuteEvent::Executed(Ok(()), true));
    assert_eq!(
        execute_txs(state, ExecuteEvent::Fetched(true)),
        (ExecuteState::Finished, ExecuteAction::Done(3))
    );
}

#[test]
fn optimism_ends() {
    assert_eq!(MAX_ITERATIONS, 100);
    let (mut state, _) = start_execution();
    for round in 0..120 {
        state = incomplete_round(state, round < 99);
    }
    assert_eq!(state, ExecuteState::Ready(120));
}

#[test]
fn execution_needs_a_database() {
    assert_eq!(
        execute_txs(ExecuteState::Ready(4), ExecuteEvent::Db(false)),
        (ExecuteState::Finished, ExecuteAction::Fail(PreflightError::NoDb))
    );
    assert_eq!(
        execute_txs(ExecuteState::Executing(4), ExecuteEvent::Executed(Ok(()), false)),
        (ExecuteState::Finished, ExecuteAction::Fail(PreflightError::NoDb))
    );
}

#[test]
fn failed_execution_says_why() {
    let why = String::from("invalid nonce");
    assert_eq!(
        execute_txs(ExecuteState::Executing(1), ExecuteEvent::Executed(Err(why.clone()), false)),
        (ExecuteState::Finished, ExecuteAction::Fail(PreflightError::ExecutionFailed(why)))
    );
}
