use frame_engine::AttemptOutcome;
use frame_engine::CaptureResult;
use frame_engine::ErrorCategory;
use frame_engine::PlaybackCursor;
use frame_engine::RetryDecision;
use frame_engine::MAX_ATTEMPTS;
use frame_engine::RETRY_DELAY_MS;

#[test]
fn retry_constants() {
    assert_eq!(MAX_ATTEMPTS, 3);
    assert_eq!(RETRY_DELAY_MS, 2000);
}

#[test]
fn retry_transient_below_limit_waits_fixed_delay() {
    let d = frame_engine::next_action(1, ErrorCategory::Timeout);
    assert_eq!(d, RetryDecision::RetryAfterMs(RETRY_DELAY_MS));
    let d = frame_engine::next_action(2, ErrorCategory::TransportUnreachable);
    assert_eq!(d, RetryDecision::RetryAfterMs(RETRY_DELAY_MS));
}

#[test]
fn retry_gives_up_at_limit_and_on_final_errors() {
    assert_eq!(
        frame_engine::next_action(MAX_ATTEMPTS, ErrorCategory::Timeout),
        RetryDecision::GiveUp
    );
    assert_eq!(
        frame_engine::next_action(1, ErrorCategory::SpawnFailed),
        RetryDecision::GiveUp
    );
    assert_eq!(
        frame_engine::next_action(1, ErrorCategory::AuthenticationFailed),
        RetryDecision::GiveUp
    );
}

#[test]
fn transient_categories() {
    assert!(ErrorCategory::TransportUnreachable.is_transient());
    assert!(ErrorCategory::Timeout.is_transient());
    assert!(ErrorCategory::StreamUnavailable.is_transient());
    assert!(!ErrorCategory::SpawnFailed.is_transient());
    assert!(!ErrorCategory::AuthenticationFailed.is_transient());
    assert!(!ErrorCategory::EndOfMedia.is_transient());
    assert!(!ErrorCategory::TaskFailure.is_transient());
}

#[test]
fn capture_succeeds_on_third_attempt_after_two_delays() {
    // Two timeouts, then a frame: the frame comes back with no error,
    // after exactly two inter-attempt delays.
    let outcomes = vec![
        AttemptOutcome::Failed(ErrorCategory::Timeout, b"timed out".to_vec()),
        AttemptOutcome::Failed(ErrorCategory::Timeout, b"timed out".to_vec()),
        AttemptOutcome::Captured(vec![0xff, 0xd8, 0xff, 0xd9]),
    ];
    match frame_engine::run_attempts(outcomes) {
        CaptureResult::Frame(f) => assert_eq!(f, vec![0xff, 0xd8, 0xff, 0xd9]),
        CaptureResult::Failure(_) => panic!("expected a frame"),
    }
}

#[test]
fn capture_always_transient_attempts_exactly_three_times() {
    let outcomes = vec![
        AttemptOutcome::Failed(ErrorCategory::TransportUnreachable, b"Connection refused".to_vec()),
        AttemptOutcome::Failed(ErrorCategory::TransportUnreachable, b"Connection refused".to_vec()),
        AttemptOutcome::Failed(ErrorCategory::TransportUnreachable, b"Connection refused".to_vec()),
    ];
    match frame_engine::run_attempts(outcomes) {
        CaptureResult::Frame(_) => panic!("expected a failure"),
        CaptureResult::Failure(e) => {
            assert_eq!(e.attempts, MAX_ATTEMPTS);
            assert_eq!(e.waited_ms, (MAX_ATTEMPTS as u64 - 1) * RETRY_DELAY_MS);
            assert_eq!(e.category, ErrorCategory::TransportUnreachable);
            assert_eq!(e.diagnostic, b"Connection refused".to_vec());
        }
    }
}

#[test]
fn capture_non_transient_fails_immediately() {
    let outcomes = vec![
        AttemptOutcome::Failed(ErrorCategory::SpawnFailed, b"no decoder".to_vec()),
        AttemptOutcome::Captured(vec![1]),
        AttemptOutcome::Captured(vec![2]),
    ];
    match frame_engine::run_attempts(outcomes) {
        CaptureResult::Frame(_) => panic!("expected a failure"),
        CaptureResult::Failure(e) => {
            assert_eq!(e.attempts, 1);
            assert_eq!(e.waited_ms, 0);
            assert_eq!(e.category, ErrorCategory::SpawnFailed);
        }
    }
}

#[test]
fn capture_first_attempt_success_short_circuits() {
    let outcomes = vec![
        AttemptOutcome::Captured(vec![9]),
        AttemptOutcome::Failed(ErrorCategory::Timeout, Vec::new()),
        AttemptOutcome::Failed(ErrorCategory::Timeout, Vec::new()),
    ];
    match frame_engine::run_attempts(outcomes) {
        CaptureResult::Frame(f) => assert_eq!(f, vec![9]),
        CaptureResult::Failure(_) => panic!("expected a frame"),
    }
}

#[test]
fn cursor_advances_through_media() {
    let mut cursor = PlaybackCursor::new();
    assert_eq!(cursor.current(), 0);
    assert_eq!(cursor.capture_index(3), 0);
    assert_eq!(cursor.capture_index(3), 1);
    assert_eq!(cursor.capture_index(3), 2);
}

#[test]
fn cursor_wraps_past_end_of_media() {
    // Cursor at position 9, media of 9 frames (0 through 8 valid): the
    // decode of frame 9 fails, the orchestrator retries at frame 0, and
    // the cursor resumes from frame 1.
    let mut cursor = PlaybackCursor::at(9);
    let idx = cursor.capture_index(9);
    assert_eq!(idx, 0);
    assert_eq!(cursor.current(), 1);
    let idx = cursor.capture_index(9);
    assert_eq!(idx, 1);
    assert_eq!(cursor.current(), 2);
}

#[test]
fn cursor_rewind_requests_frame_zero() {
    let mut cursor = PlaybackCursor::at(42);
    let idx = cursor.rewind();
    assert_eq!(idx, 0);
    assert_eq!(cursor.current(), 1);
}

#[test]
fn cursor_loops_simulated_playback() {
    // A media of 2 frames played 5 requests long: 0, 1, then the failed
    // decode at 2 loops back to 0, and so on.
    let mut cursor = PlaybackCursor::new();
    let mut seen = Vec::new();
    for _ in 0..5 {
        seen.push(cursor.capture_index(2));
    }
    assert_eq!(seen, vec![0, 1, 0, 1, 0]);
}
