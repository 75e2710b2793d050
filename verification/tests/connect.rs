use tipsy::win::{
    connect_step, resolve_connect, AttemptOutcome, ConnectAction, ERROR_PIPE_BUSY,
    PIPE_AVAILABILITY_TIMEOUT_MS, PIPE_RETRY_INTERVAL_MS,
};

const ERROR_FILE_NOT_FOUND: u32 = 2;

#[test]
fn successful_open_is_accepted() {
    assert_eq!(
        connect_step(AttemptOutcome::Connected, 0),
        ConnectAction::Accept
    );
    assert_eq!(
        connect_step(AttemptOutcome::Connected, 4999),
        ConnectAction::Accept
    );
}

#[test]
fn missing_endpoint_fails_immediately_without_retry() {
    assert_eq!(
        connect_step(AttemptOutcome::Error(ERROR_FILE_NOT_FOUND), 0),
        ConnectAction::Fail(ERROR_FILE_NOT_FOUND)
    );
    // Even with the whole budget still open, a non-busy error never retries.
    assert_eq!(
        connect_step(AttemptOutcome::Error(5), 1),
        ConnectAction::Fail(5)
    );
}

#[test]
fn busy_pipe_within_budget_is_retried_after_fixed_pause() {
    assert_eq!(
        connect_step(AttemptOutcome::Error(ERROR_PIPE_BUSY), 0),
        ConnectAction::RetryAfter(PIPE_RETRY_INTERVAL_MS)
    );
    assert_eq!(
        connect_step(AttemptOutcome::Error(ERROR_PIPE_BUSY), 4999),
        ConnectAction::RetryAfter(50)
    );
}

#[test]
fn busy_pipe_past_budget_fails_with_busy_error() {
    assert_eq!(
        connect_step(
            AttemptOutcome::Error(ERROR_PIPE_BUSY),
            PIPE_AVAILABILITY_TIMEOUT_MS
        ),
        ConnectAction::Fail(ERROR_PIPE_BUSY)
    );
    assert_eq!(
        connect_step(AttemptOutcome::Error(ERROR_PIPE_BUSY), 123_456),
        ConnectAction::Fail(ERROR_PIPE_BUSY)
    );
}

#[test]
fn resolved_connect_succeeds_at_first_free_instance() {
    let attempts = vec![
        (0u64, AttemptOutcome::Error(ERROR_PIPE_BUSY)),
        (50, AttemptOutcome::Error(ERROR_PIPE_BUSY)),
        (100, AttemptOutcome::Connected),
        (150, AttemptOutcome::Connected),
    ];
    assert_eq!(resolve_connect(&attempts), Some(Ok(2)));
}

#[test]
fn resolved_connect_surfaces_first_hard_error() {
    let attempts = vec![
        (0u64, AttemptOutcome::Error(ERROR_PIPE_BUSY)),
        (50, AttemptOutcome::Error(ERROR_FILE_NOT_FOUND)),
        (100, AttemptOutcome::Connected),
    ];
    assert_eq!(resolve_connect(&attempts), Some(Err(ERROR_FILE_NOT_FOUND)));
}

#[test]
fn resolved_connect_fails_busy_once_budget_is_crossed() {
    let attempts = vec![
        (0u64, AttemptOutcome::Error(ERROR_PIPE_BUSY)),
        (4999, AttemptOutcome::Error(ERROR_PIPE_BUSY)),
        (5049, AttemptOutcome::Error(ERROR_PIPE_BUSY)),
    ];
    assert_eq!(resolve_connect(&attempts), Some(Err(ERROR_PIPE_BUSY)));
}

#[test]
fn resolved_connect_reports_an_exhausted_trace() {
    assert_eq!(resolve_connect(&vec![]), None);
    let attempts = vec![(0u64, AttemptOutcome::Error(ERROR_PIPE_BUSY))];
    assert_eq!(resolve_connect(&attempts), None);
}

#[test]
fn busy_pipe_that_frees_within_budget_connects() {
    // Drive the policy the way the host loop does, over a pipe that frees
    // an instance on the third attempt.
    let outcomes = [
        (0u64, AttemptOutcome::Error(ERROR_PIPE_BUSY)),
        (50, AttemptOutcome::Error(ERROR_PIPE_BUSY)),
        (100, AttemptOutcome::Connected),
    ];
    let mut connected_at = None;
    for (i, (elapsed, outcome)) in outcomes.iter().enumerate() {
        match connect_step(*outcome, *elapsed) {
            ConnectAction::Accept => {
                connected_at = Some(i);
                break;
            }
            ConnectAction::RetryAfter(pause) => assert_eq!(pause, 50),
            ConnectAction::Fail(code) => panic!("unexpected failure with code {code}"),
        }
    }
    assert_eq!(connected_at, Some(2));
}

#[test]
fn busy_pipe_never_freed_fails_once_budget_is_spent() {
    let mut elapsed = 0u64;
    let mut attempts = 0u32;
    let failure = loop {
        match connect_step(AttemptOutcome::Error(ERROR_PIPE_BUSY), elapsed) {
            ConnectAction::Accept => panic!("a busy pipe cannot be accepted"),
            ConnectAction::RetryAfter(pause) => {
                elapsed += pause;
                attempts += 1;
            }
            ConnectAction::Fail(code) => break code,
        }
    };
    assert_eq!(failure, ERROR_PIPE_BUSY);
    // The budget of 5000 ms in 50 ms pauses: the failure comes at the first
    // attempt made once five seconds have elapsed.
    assert_eq!(attempts, 100);
    assert_eq!(elapsed, PIPE_AVAILABILITY_TIMEOUT_MS);
}
