use clambake_github::error::GitHubError;
use clambake_github::retry::{RetryState, RetryStep, BASE_DELAY_MS, MAX_ATTEMPTS};

/// Runs a call whose attempts end as `script` says, and gives the number of
/// attempts made, the waits in order, and the result.
fn run(script: &[Result<u32, &str>]) -> (usize, Vec<u64>, Result<u32, GitHubError>) {
    let mut state = RetryState::new();
    let mut attempts = 0;
    let mut waits = Vec::new();
    loop {
        let outcome = script[attempts].map_err(|why| why.to_string());
        attempts += 1;
        assert_eq!(state.attempt() as usize, attempts);
        match state.settle(outcome) {
            RetryStep::Done(value) => return (attempts, waits, Ok(value)),
            RetryStep::Failed(e) => return (attempts, waits, Err(e)),
            RetryStep::Wait { millis, next } => {
                waits.push(millis);
                state = next;
            }
        }
    }
}

#[test]
fn policy_constants() {
    assert_eq!(MAX_ATTEMPTS, 3);
    assert_eq!(BASE_DELAY_MS, 500);
}

#[test]
fn first_attempt_succeeds_without_waiting() {
    let (attempts, waits, result) = run(&[Ok(7), Err("unused"), Err("unused")]);
    assert_eq!(attempts, 1);
    assert!(waits.is_empty());
    assert_eq!(result, Ok(7));
}

#[test]
fn second_attempt_succeeds_after_one_wait() {
    let (attempts, waits, result) = run(&[Err("blip"), Ok(8), Err("unused")]);
    assert_eq!(attempts, 2);
    assert_eq!(waits, vec![500]);
    assert_eq!(result, Ok(8));
}

#[test]
fn fails_twice_then_succeeds_on_the_third_attempt() {
    let (attempts, waits, result) = run(&[Err("one"), Err("two"), Ok(9)]);
    assert_eq!(attempts, 3);
    assert_eq!(waits, vec![500, 1000]);
    assert!(waits.iter().sum::<u64>() >= 500 + 1000);
    assert_eq!(result, Ok(9));
}

#[test]
fn fails_three_times_with_the_last_failure() {
    let (attempts, waits, result) = run(&[Err("one"), Err("two"), Err("three"), Ok(1)]);
    assert_eq!(attempts, 3);
    assert_eq!(waits, vec![500, 1000]);
    assert_eq!(result, Err(GitHubError::ApiError("three".to_string())));
}

/// The state after `failures` failed attempts.
fn after_failures(failures: u32) -> RetryState {
    let mut state = RetryState::new();
    for _ in 0..failures {
        state = match state.settle::<()>(Err("down".to_string())) {
            RetryStep::Wait { next, .. } => next,
            other => panic!("unexpected step: {:?}", other),
        };
    }
    state
}

#[test]
fn settle_step_by_step() {
    let first = RetryState::new();
    assert_eq!(first.attempt(), 1);
    let second = match first.settle::<()>(Err("a".to_string())) {
        RetryStep::Wait { millis, next } => {
            assert_eq!(millis, 500);
            next
        }
        other => panic!("unexpected step: {:?}", other),
    };
    assert_eq!(second.attempt(), 2);
    let third = match second.settle::<()>(Err("b".to_string())) {
        RetryStep::Wait { millis, next } => {
            assert_eq!(millis, 1000);
            next
        }
        other => panic!("unexpected step: {:?}", other),
    };
    assert_eq!(third.attempt(), 3);
    assert_eq!(
        third.settle::<()>(Err("c".to_string())),
        RetryStep::Failed(GitHubError::ApiError("c".to_string()))
    );
}

#[test]
fn success_ends_the_call_at_any_attempt() {
    for failures in 0..3 {
        let state = after_failures(failures);
        assert_eq!(state.attempt(), failures + 1);
        assert_eq!(state.settle(Ok("issue")), RetryStep::Done("issue"));
    }
}

#[test]
fn every_script_ends_within_three_attempts() {
    for bits in 0u32..8 {
        let script: Vec<Result<u32, &str>> =
            (0..3).map(|i| if bits & (1 << i) != 0 { Ok(i) } else { Err("down") }).collect();
        let (attempts, waits, result) = run(&script);
        assert!(1 <= attempts && attempts <= 3);
        assert_eq!(waits.len(), attempts - 1);
        for (i, wait) in waits.iter().enumerate() {
            assert_eq!(*wait, 500 * (i as u64 + 1));
        }
        match script.iter().position(|outcome| outcome.is_ok()) {
            Some(at) => {
                assert_eq!(attempts, at + 1);
                assert_eq!(result, Ok(at as u32));
            }
            None => {
                assert_eq!(attempts, 3);
                assert_eq!(result, Err(GitHubError::ApiError("down".to_string())));
            }
        }
    }
}
