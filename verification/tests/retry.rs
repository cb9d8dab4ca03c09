use fortnox::response::interpret;
use fortnox::retry::{RetryAction, RetryState, BACKOFF, INITIAL_DELAY_MS, RETRIES};
use fortnox::{ApiErrorCode, Error};

/// Runs a request whose attempts end as scripted; gives the outcome, the
/// number of attempts made and the waits, each with the number of attempts
/// made before it.
fn run(script: &[Result<u32, Error>]) -> (Option<Result<u32, Error>>, usize, Vec<(usize, u64)>) {
    let mut state = RetryState::new();
    let mut attempts = 0;
    let mut waits = Vec::new();
    for outcome in script {
        attempts += 1;
        let (next, action) = state.step(outcome.clone());
        state = next;
        match action {
            RetryAction::WaitAndRetry { delay_ms } => waits.push((attempts, delay_ms)),
            RetryAction::WaitAndGiveUp { delay_ms } => {
                waits.push((attempts, delay_ms));
                return (Some(Err(Error::Throttling)), attempts, waits);
            }
            RetryAction::Return(outcome) => return (Some(outcome), attempts, waits),
        }
    }
    (None, attempts, waits)
}

#[test]
fn policy_constants() {
    assert_eq!(RETRIES, 5);
    assert_eq!(INITIAL_DELAY_MS, 100);
    assert_eq!(BACKOFF, 2);
}

#[test]
fn initial_state() {
    let state = RetryState::new();
    assert_eq!(state.attempts(), 0);
    assert_eq!(state.delay_ms(), 100);
    assert!(!state.is_done());
}

#[test]
fn throttled_on_every_attempt() {
    let throttled: Result<u32, Error> = interpret(429, "slow down").map(|_| 0);
    assert_eq!(throttled, Err(Error::Throttling));
    let script = vec![throttled; 8];
    let (outcome, attempts, waits) = run(&script);
    assert_eq!(outcome, Some(Err(Error::Throttling)));
    assert_eq!(attempts, 5);
    let before_last: Vec<u64> =
        waits.iter().filter(|(made, _)| *made < 5).map(|(_, ms)| *ms).collect();
    assert_eq!(before_last, vec![100, 200, 400, 800]);
    assert_eq!(before_last.iter().sum::<u64>(), 1500);
    let all: Vec<u64> = waits.iter().map(|(_, ms)| *ms).collect();
    assert_eq!(all, vec![100, 200, 400, 800, 1600]);
}

#[test]
fn attempts_are_the_smaller_of_throttles_and_bound() {
    for n in 0usize..=9 {
        let script = vec![Err(Error::Throttling); n];
        let (outcome, attempts, waits) = run(&script);
        assert_eq!(attempts, n.min(5));
        assert_eq!(waits.len(), n.min(5));
        assert_eq!(outcome.is_some(), n >= 5);
        for (i, (made, ms)) in waits.iter().enumerate() {
            assert_eq!(*made, i + 1);
            assert_eq!(*ms, 100 << i);
        }
    }
}

#[test]
fn success_is_returned_at_once() {
    let (outcome, attempts, waits) = run(&[Ok(7), Ok(8)]);
    assert_eq!(outcome, Some(Ok(7)));
    assert_eq!(attempts, 1);
    assert!(waits.is_empty());
}

#[test]
fn success_after_throttling() {
    let (outcome, attempts, waits) =
        run(&[Err(Error::Throttling), Err(Error::Throttling), Ok(3), Ok(4)]);
    assert_eq!(outcome, Some(Ok(3)));
    assert_eq!(attempts, 3);
    assert_eq!(waits, vec![(1, 100), (2, 200)]);
}

#[test]
fn success_on_the_last_attempt() {
    let mut script = vec![Err(Error::Throttling); 4];
    script.push(Ok(1));
    let (outcome, attempts, waits) = run(&script);
    assert_eq!(outcome, Some(Ok(1)));
    assert_eq!(attempts, 5);
    assert_eq!(waits, vec![(1, 100), (2, 200), (3, 400), (4, 800)]);
}

#[test]
fn other_failures_are_not_retried() {
    for failure in [
        Error::Unspecified("u".to_string()),
        Error::ParseError("p".to_string()),
        Error::SerializationError("s".to_string()),
        Error::NetworkError("n".to_string()),
        Error::ApiError(ApiErrorCode::NotAlphanumeric, "bad".to_string()),
    ] {
        let (outcome, attempts, waits) = run(&[Err(failure.clone()), Ok(1)]);
        assert_eq!(outcome, Some(Err(failure.clone())));
        assert_eq!(attempts, 1);
        assert!(waits.is_empty());

        let (outcome, attempts, waits) =
            run(&[Err(Error::Throttling), Err(failure.clone()), Ok(1)]);
        assert_eq!(outcome, Some(Err(failure)));
        assert_eq!(attempts, 2);
        assert_eq!(waits, vec![(1, 100)]);
    }
}

#[test]
fn api_error_from_a_response_is_not_retried() {
    let body = "{\"ErrorInformation\":{\"Error\":1,\"Message\":\"bad\",\"Code\":2000106}}";
    let outcome = interpret(400, body);
    let (state, action) = RetryState::new().step(outcome);
    assert!(state.is_done());
    assert_eq!(state.attempts(), 1);
    assert_eq!(
        action,
        RetryAction::Return(Err(Error::ApiError(
            ApiErrorCode::NotAlphanumeric,
            "bad".to_string()
        )))
    );
}

#[test]
fn step_counts_and_doubles() {
    let state = RetryState::new();
    let (state, action) = state.step::<u32>(Err(Error::Throttling));
    assert_eq!(action, RetryAction::WaitAndRetry { delay_ms: 100 });
    assert_eq!((state.attempts(), state.delay_ms(), state.is_done()), (1, 200, false));
    let (state, action) = state.step::<u32>(Err(Error::Throttling));
    assert_eq!(action, RetryAction::WaitAndRetry { delay_ms: 200 });
    assert_eq!((state.attempts(), state.delay_ms(), state.is_done()), (2, 400, false));
    let (state, action) = state.step::<u32>(Err(Error::Throttling));
    assert_eq!(action, RetryAction::WaitAndRetry { delay_ms: 400 });
    let (state, action) = state.step::<u32>(Err(Error::Throttling));
    assert_eq!(action, RetryAction::WaitAndRetry { delay_ms: 800 });
    assert_eq!((state.attempts(), state.delay_ms(), state.is_done()), (4, 1600, false));
    let (state, action) = state.step::<u32>(Err(Error::Throttling));
    assert_eq!(action, RetryAction::WaitAndGiveUp { delay_ms: 1600 });
    assert_eq!((state.attempts(), state.is_done()), (5, true));
}

#[test]
fn a_state_that_is_done_stays_so() {
    let (done, _) = RetryState::new().step(Ok(1u32));
    assert!(done.is_done());
    let (after, action) = done.step::<u32>(Err(Error::Throttling));
    assert_eq!(after, done);
    assert_eq!(action, RetryAction::Return(Err(Error::Throttling)));
    let (after, action) = done.step(Ok(2u32));
    assert_eq!(after, done);
    assert_eq!(action, RetryAction::Return(Ok(2)));
}
