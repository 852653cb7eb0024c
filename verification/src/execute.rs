//! Executing the transactions of a block round after round, until all the state they read is
//! there.
use vstd::prelude::*;
use crate::error::PreflightError;

verus! {

/// How many rounds there are before execution stops being optimistic, that round included.
pub const MAX_ITERATIONS: i32 = 100;

/// How far the execution has come, and in which round it is.
#[derive(Debug, PartialEq, Eq)]
pub enum ExecuteState {
    /// A round is about to begin.
    Ready(i32),
    /// The transactions are being executed.
    Executing(i32),
    /// The state that was missed is being fetched.
    Fetching(i32),
    /// There is nothing left to do.
    Finished,
}

/// What came back from outside.
#[derive(Debug, PartialEq, Eq)]
pub enum ExecuteEvent {
    /// Whether the builder has a database.
    Db(bool),
    /// How the execution went, and whether the builder still has a database.
    Executed(Result<(), String>, bool),
    /// Whether nothing was left to be fetched.
    Fetched(bool),
}

/// What is to be done outside.
#[derive(Debug, PartialEq, Eq)]
pub enum ExecuteAction {
    /// Look whether the builder has a database.
    LookAtDb,
    /// Execute the transactions, database and builder both optimistic or both not.
    Execute { optimistic: bool },
    /// Fetch the state that was missed.
    Fetch,
    /// Stop: all state is there, after so many rounds that it was not.
    Done(i32),
    /// Give up.
    Fail(PreflightError),
}

/// Whether a round puts up with state that is not there yet.
pub open spec fn is_optimistic(iteration: int) -> bool {
    iteration + 1 < MAX_ITERATIONS
}

/// Whether the event is an answer to what was asked last, in a round that can be counted.
pub open spec fn answers(state: ExecuteState, event: ExecuteEvent) -> bool {
    match (state, event) {
        (ExecuteState::Ready(n), ExecuteEvent::Db(_)) => 0 <= n < i32::MAX,
        (ExecuteState::Executing(n), ExecuteEvent::Executed(_, _)) => 0 <= n < i32::MAX,
        (ExecuteState::Fetching(n), ExecuteEvent::Fetched(_)) => 0 <= n < i32::MAX,
        _ => false,
    }
}

/// What follows from an answer.
pub open spec fn step(state: ExecuteState, event: ExecuteEvent) -> (ExecuteState, ExecuteAction) {
    match (state, event) {
        (ExecuteState::Ready(n), ExecuteEvent::Db(true)) => (
            ExecuteState::Executing(n),
            ExecuteAction::Execute { optimistic: is_optimistic(n as int) },
        ),
        (ExecuteState::Executing(_), ExecuteEvent::Executed(Err(why), _)) => (
            ExecuteState::Finished,
            ExecuteAction::Fail(PreflightError::ExecutionFailed(why)),
        ),
        (ExecuteState::Executing(n), ExecuteEvent::Executed(Ok(_), true)) => (
            ExecuteState::Fetching(n),
            ExecuteAction::Fetch,
        ),
        (ExecuteState::Fetching(n), ExecuteEvent::Fetched(true)) => (
            ExecuteState::Finished,
            ExecuteAction::Done(n),
        ),
        (ExecuteState::Fetching(n), ExecuteEvent::Fetched(false)) => (
            ExecuteState::Ready((n + 1) as i32),
            ExecuteAction::LookAtDb,
        ),
        _ => (ExecuteState::Finished, ExecuteAction::Fail(PreflightError::NoDb)),
    }
}

/// The first round.
pub fn start_execution() -> (r: (ExecuteState, ExecuteAction))
    ensures
        r == (ExecuteState::Ready(0), ExecuteAction::LookAtDb),
{
    (ExecuteState::Ready(0), ExecuteAction::LookAtDb)
}

/// Takes an answer, and says what is to be done next.
pub fn execute_txs(state: ExecuteState, event: ExecuteEvent) -> (r: (ExecuteState, ExecuteAction))
    requires
        answers(state, event),
    ensures
        r == step(state, event),
{
    match (state, event) {
        (ExecuteState::Ready(n), ExecuteEvent::Db(true)) => (
            ExecuteState::Executing(n),
            ExecuteAction::Execute { optimistic: n + 1 < MAX_ITERATIONS },
        ),
        (ExecuteState::Executing(_), ExecuteEvent::Executed(Err(why), _)) => (
            ExecuteState::Finished,
            ExecuteAction::Fail(PreflightError::ExecutionFailed(why)),
        ),
        (ExecuteState::Executing(n), ExecuteEvent::Executed(Ok(_), true)) => (
            ExecuteState::Fetching(n),
            ExecuteAction::Fetch,
        ),
        (ExecuteState::Fetching(n), ExecuteEvent::Fetched(true)) => (
            ExecuteState::Finished,
            ExecuteAction::Done(n),
        ),
        (ExecuteState::Fetching(n), ExecuteEvent::Fetched(false)) => (
            ExecuteState::Ready(n + 1),
            ExecuteAction::LookAtDb,
        ),
        _ => (ExecuteState::Finished, ExecuteAction::Fail(PreflightError::NoDb)),
    }
}

/// Where a row of answers leads.
pub open spec fn run(state: ExecuteState, events: Seq<ExecuteEvent>) -> ExecuteState
    decreases events.len(),
{
    if events.len() == 0 {
        state
    } else {
        run(step(state, events[0]).0, events.skip(1))
    }
}

/// The answers of a round in which everything works, up to the fetch.
pub open spec fn working_round() -> Seq<ExecuteEvent> {
    seq![ExecuteEvent::Db(true), ExecuteEvent::Executed(Ok(()), true)]
}

/// The answers of so many rounds that work but leave something to be fetched.
pub open spec fn incomplete_rounds(count: nat) -> Seq<ExecuteEvent>
    decreases count,
{
    if count == 0 {
        Seq::empty()
    } else {
        incomplete_rounds((count - 1) as nat) + working_round() + seq![ExecuteEvent::Fetched(false)]
    }
}

proof fn lemma_run_splits(state: ExecuteState, a: Seq<ExecuteEvent>, b: Seq<ExecuteEvent>)
    ensures
        run(state, a + b) == run(run(state, a), b),
    decreases a.len(),
{
    if a.len() == 0 {
        assert(a + b =~= b);
    } else {
        assert((a + b).skip(1) =~= a.skip(1) + b);
        lemma_run_splits(step(state, a[0]).0, a.skip(1), b);
    }
}

proof fn lemma_run_round(n: i32)
    ensures
        run(ExecuteState::Ready(n), working_round()) == ExecuteState::Fetching(n),
{
    let round = working_round();
    assert(round.skip(1) =~= seq![ExecuteEvent::Executed(Ok(()), true)]);
    assert(round.skip(1).skip(1) =~= Seq::empty());
    reveal_with_fuel(run, 3);
}

/// As long as something is left to be fetched, one round follows another.
pub proof fn law_incomplete_rounds_go_on(count: nat)
    requires
        count <= i32::MAX,
    ensures
        run(ExecuteState::Ready(0), incomplete_rounds(count)) == ExecuteState::Ready(count as i32),
    decreases count,
{
    if count > 0 {
        let before = incomplete_rounds((count - 1) as nat);
        let last = seq![ExecuteEvent::Fetched(false)];
        let n = (count - 1) as i32;
        law_incomplete_rounds_go_on((count - 1) as nat);
        lemma_run_splits(ExecuteState::Ready(0), before + working_round(), last);
        lemma_run_splits(ExecuteState::Ready(0), before, working_round());
        lemma_run_round(n);
        assert(last.skip(1) =~= Seq::empty());
        reveal_with_fuel(run, 2);
    }
}

/// The first fetch that leaves nothing ends the execution, and its round is reported.
pub proof fn law_first_complete_fetch_ends_execution(count: nat)
    requires
        count <= i32::MAX,
    ensures
        run(ExecuteState::Ready(0), incomplete_rounds(count) + working_round())
            == ExecuteState::Fetching(count as i32),
        step(ExecuteState::Fetching(count as i32), ExecuteEvent::Fetched(true)) == (
            ExecuteState::Finished,
            ExecuteAction::Done(count as i32),
        ),
{
    law_incomplete_rounds_go_on(count);
    lemma_run_splits(ExecuteState::Ready(0), incomplete_rounds(count), working_round());
    lemma_run_round(count as i32);
}

/// The first ninety-nine rounds are optimistic, and no later one is.
pub proof fn law_optimism_ends(iteration: i32)
    requires
        0 <= iteration,
    ensures
        step(ExecuteState::Ready(iteration), ExecuteEvent::Db(true)).1 == (ExecuteAction::Execute {
            optimistic: iteration < 99,
        }),
{
}

/// Every answer has its consequence, in every round: a round begins with a database or not at all,
/// a failed execution says why, a database that is gone ends the work, and a fetch ends it or
/// brings on the next round.
pub proof fn law_every_answer_has_its_consequence(iteration: i32, why: String, still_there: bool)
    requires
        0 <= iteration < i32::MAX,
    ensures
        step(ExecuteState::Ready(iteration), ExecuteEvent::Db(true)) == (
            ExecuteState::Executing(iteration),
            ExecuteAction::Execute { optimistic: iteration < 99 },
        ),
        step(ExecuteState::Ready(iteration), ExecuteEvent::Db(false)) == (
            ExecuteState::Finished,
            ExecuteAction::Fail(PreflightError::NoDb),
        ),
        step(
            ExecuteState::Executing(iteration),
            ExecuteEvent::Executed(Err(why), still_there),
        ) == (
            ExecuteState::Finished,
            ExecuteAction::Fail(PreflightError::ExecutionFailed(why)),
        ),
        step(ExecuteState::Executing(iteration), ExecuteEvent::Executed(Ok(()), true)) == (
            ExecuteState::Fetching(iteration),
            ExecuteAction::Fetch,
        ),
        step(ExecuteState::Executing(iteration), ExecuteEvent::Executed(Ok(()), false)) == (
            ExecuteState::Finished,
            ExecuteAction::Fail(PreflightError::NoDb),
        ),
        step(ExecuteState::Fetching(iteration), ExecuteEvent::Fetched(true)) == (
            ExecuteState::Finished,
            ExecuteAction::Done(iteration),
        ),
        step(ExecuteState::Fetching(iteration), ExecuteEvent::Fetched(false)) == (
            ExecuteState::Ready((iteration + 1) as i32),
            ExecuteAction::LookAtDb,
        ),
{
}

/// In every round that can be counted, each answer to what was asked is taken.
pub proof fn law_every_answer_is_taken(
    iteration: i32,
    done: Result<(), String>,
    there: bool,
)
    requires
        0 <= iteration < i32::MAX,
    ensures
        answers(ExecuteState::Ready(iteration), ExecuteEvent::Db(there)),
        answers(ExecuteState::Executing(iteration), ExecuteEvent::Executed(done, there)),
        answers(ExecuteState::Fetching(iteration), ExecuteEvent::Fetched(there)),
{
}

} // verus!
