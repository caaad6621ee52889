//! The retry policy for calls that change something on the remote side.
//!
//! A call is attempted up to `MAX_ATTEMPTS` times. After a failed attempt
//! that is not the last, the caller waits `BASE_DELAY_MS` times the number of
//! that attempt and tries again. The caller makes the attempts and does the
//! waiting; what to do after each attempt is decided here.

use crate::error::{ErrorKind, Failure, GitHubError};
use vstd::prelude::*;

verus! {

/// How many times a call is attempted at most.
pub const MAX_ATTEMPTS: u32 = 3;

/// The wait after the first failed attempt, in milliseconds.
pub const BASE_DELAY_MS: u64 = 500;

/// Where a retried call stands: the number of the attempt under way, from 1
/// to `MAX_ATTEMPTS`. A state is used up when its attempt is settled, so that
/// no more than `MAX_ATTEMPTS` attempts follow from `RetryState::new`.
#[derive(Debug, PartialEq, Eq)]
pub struct RetryState {
    attempt: u32,
}

impl View for RetryState {
    type V = nat;

    closed spec fn view(&self) -> nat {
        self.attempt as nat
    }
}

/// What the caller does once an attempt has ended.
#[derive(Debug, PartialEq, Eq)]
pub enum RetryStep<T> {
    /// The call succeeded with this value.
    Done(T),
    /// Wait for `millis` milliseconds, then make the attempt that `next`
    /// stands at.
    Wait { millis: u64, next: RetryState },
    /// No attempt is left: report this failure.
    Failed(GitHubError),
}

/// What a `RetryStep` stands for.
pub enum StepView<T> {
    Done(T),
    Wait { millis: nat, next: nat },
    Failed(Failure),
}

impl<T> View for RetryStep<T> {
    type V = StepView<T>;

    open spec fn view(&self) -> StepView<T> {
        match self {
            RetryStep::Done(value) => StepView::Done(*value),
            RetryStep::Wait { millis, next } => StepView::Wait {
                millis: *millis as nat,
                next: next@,
            },
            RetryStep::Failed(e) => StepView::Failed(e@),
        }
    }
}

/// How an attempt ended, with the failure's text as characters.
pub open spec fn outcome_view<T>(outcome: Result<T, String>) -> Result<T, Seq<char>> {
    match outcome {
        Ok(value) => Ok(value),
        Err(why) => Err(why@),
    }
}

/// The wait after failed attempt number `attempt`, in milliseconds.
pub open spec fn delay_after(attempt: nat) -> nat {
    BASE_DELAY_MS as nat * attempt
}

/// The step that follows attempt number `attempt`, given how it ended.
pub open spec fn step<T>(attempt: nat, outcome: Result<T, Seq<char>>) -> StepView<T> {
    match outcome {
        Ok(value) => StepView::Done(value),
        Err(why) => if attempt < MAX_ATTEMPTS {
            StepView::Wait { millis: delay_after(attempt), next: attempt + 1 }
        } else {
            StepView::Failed(Failure { kind: ErrorKind::ApiError, detail: why })
        },
    }
}

/// A retried call from start to end.
pub struct Run<T> {
    /// How many attempts were made.
    pub attempts: nat,
    /// How long was waited between them in all, in milliseconds.
    pub waited: nat,
    /// What the call ended in.
    pub result: Result<T, Failure>,
}

/// The run that is left from attempt number `attempt` on, where
/// `outcome_of(n)` is how attempt number `n` ends.
pub open spec fn run_from<T>(
    attempt: nat,
    outcome_of: spec_fn(nat) -> Result<T, Seq<char>>,
) -> Run<T>
    decreases MAX_ATTEMPTS - attempt,
{
    match step(attempt, outcome_of(attempt)) {
        StepView::Done(value) => Run { attempts: attempt, waited: 0, result: Ok(value) },
        StepView::Failed(failure) => Run { attempts: attempt, waited: 0, result: Err(failure) },
        StepView::Wait { millis, next } => {
            let rest = run_from(next, outcome_of);
            Run { attempts: rest.attempts, waited: millis + rest.waited, result: rest.result }
        },
    }
}

/// The whole run of a call, where `outcome_of(n)` is how attempt number `n`
/// ends.
pub open spec fn run<T>(outcome_of: spec_fn(nat) -> Result<T, Seq<char>>) -> Run<T> {
    run_from(1, outcome_of)
}

/// What has been waited in all before attempt number `attempt`.
pub open spec fn waited_before(attempt: nat) -> nat
    decreases attempt,
{
    if attempt <= 1 {
        0
    } else {
        waited_before((attempt - 1) as nat) + delay_after((attempt - 1) as nat)
    }
}

impl RetryState {
    #[verifier::type_invariant]
    spec fn in_range(&self) -> bool {
        1 <= self.attempt <= MAX_ATTEMPTS
    }

    /// The state of a call whose first attempt is about to be made.
    pub fn new() -> (r: RetryState)
        ensures
            r@ == 1,
    {
        RetryState { attempt: 1 }
    }

    /// The number of the attempt under way.
    pub fn attempt(&self) -> (r: u32)
        ensures
            r == self@,
            1 <= r <= MAX_ATTEMPTS,
    {
        proof {
            use_type_invariant(self);
        }
        self.attempt
    }

    /// Decides what follows the attempt under way, given how it ended: `Ok`
    /// with the call's value, or `Err` with the transport's description of
    /// what went wrong.
    pub fn settle<T>(self, outcome: Result<T, String>) -> (r: RetryStep<T>)
        ensures
            r@ == step(self@, outcome_view(outcome)),
    {
        proof {
            use_type_invariant(&self);
        }
        match outcome {
            Ok(value) => RetryStep::Done(value),
            Err(why) => {
                if self.attempt < MAX_ATTEMPTS {
                    let millis: u64 = BASE_DELAY_MS * (self.attempt as u64);
                    RetryStep::Wait { millis, next: RetryState { attempt: self.attempt + 1 } }
                } else {
                    RetryStep::Failed(GitHubError::ApiError(why))
                }
            },
        }
    }
}

/// A run makes at most `MAX_ATTEMPTS` attempts and waits only between
/// attempts: exactly what is due before the last attempt it makes.
pub proof fn lemma_run_is_bounded<T>(outcome_of: spec_fn(nat) -> Result<T, Seq<char>>)
    ensures
        1 <= run(outcome_of).attempts <= MAX_ATTEMPTS,
        run(outcome_of).waited == waited_before(run(outcome_of).attempts),
        run(outcome_of).waited <= 1500,
{
    lemma_run_from(1, outcome_of);
    lemma_waited_before();
}

/// What has been waited in all before each attempt.
pub proof fn lemma_waited_before()
    ensures
        waited_before(1) == 0,
        waited_before(2) == 500,
        waited_before(3) == 1500,
{
    reveal_with_fuel(waited_before, 4);
}

/// From any attempt on, the run ends at an attempt from there to
/// `MAX_ATTEMPTS` and waits what is due between the two.
proof fn lemma_run_from<T>(attempt: nat, outcome_of: spec_fn(nat) -> Result<T, Seq<char>>)
    requires
        1 <= attempt <= MAX_ATTEMPTS,
    ensures
        attempt <= run_from(attempt, outcome_of).attempts <= MAX_ATTEMPTS,
        run_from(attempt, outcome_of).waited + waited_before(attempt) == waited_before(
            run_from(attempt, outcome_of).attempts,
        ),
        run_from(attempt, outcome_of).result == match outcome_of(
            run_from(attempt, outcome_of).attempts,
        ) {
            Ok(value) => Ok::<T, Failure>(value),
            Err(why) => Err(Failure { kind: ErrorKind::ApiError, detail: why }),
        },
        forall|n: nat|
            attempt <= n < run_from(attempt, outcome_of).attempts ==> (#[trigger] outcome_of(
                n,
            )) is Err,
        outcome_of(run_from(attempt, outcome_of).attempts) is Err ==> run_from(
            attempt,
            outcome_of,
        ).attempts == MAX_ATTEMPTS,
    decreases MAX_ATTEMPTS - attempt,
{
    if outcome_of(attempt) is Err && attempt < MAX_ATTEMPTS {
        lemma_run_from(attempt + 1, outcome_of);
    }
}

/// A run ends at the first attempt that succeeds, with that attempt's value;
/// where none of the `MAX_ATTEMPTS` attempts succeeds, it ends after the last
/// with an `ApiError` that carries the last attempt's failure. Every attempt
/// before the one it ends at has failed.
pub proof fn lemma_run_ends_at_first_success<T>(outcome_of: spec_fn(nat) -> Result<T, Seq<char>>)
    ensures
        forall|n: nat| 1 <= n < run(outcome_of).attempts ==> (#[trigger] outcome_of(n)) is Err,
        match outcome_of(run(outcome_of).attempts) {
            Ok(value) => run(outcome_of).result == Ok::<T, Failure>(value),
            Err(why) => run(outcome_of).attempts == MAX_ATTEMPTS && run(outcome_of).result == Err::<
                T,
                Failure,
            >(Failure { kind: ErrorKind::ApiError, detail: why }),
        },
{
    lemma_run_from(1, outcome_of);
}

} // verus!
