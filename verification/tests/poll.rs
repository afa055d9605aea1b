use voxel::errors::EditorError;
use voxel::poll::{duration_poll_verdict, resolve_duration, PollVerdict, MAX_DURATION_ATTEMPTS};

#[test]
fn poll_verdict_reports_found_duration() {
    assert_eq!(duration_poll_verdict(0, Some(5)), PollVerdict::Found(5));
    assert_eq!(duration_poll_verdict(42, Some(0)), PollVerdict::Found(0));
}

#[test]
fn poll_verdict_retries_while_attempts_remain() {
    assert_eq!(duration_poll_verdict(0, None), PollVerdict::TryAgain);
    assert_eq!(
        duration_poll_verdict(MAX_DURATION_ATTEMPTS - 2, None),
        PollVerdict::TryAgain
    );
}

#[test]
fn poll_verdict_exhausts_on_last_attempt() {
    assert_eq!(
        duration_poll_verdict(MAX_DURATION_ATTEMPTS - 1, None),
        PollVerdict::Exhausted
    );
}

#[test]
fn resolve_takes_first_reported_duration() {
    let samples = vec![None, None, Some(7), Some(9)];
    assert_eq!(resolve_duration(&samples), Ok(7));
}

#[test]
fn resolve_immediate_report() {
    let samples = vec![Some(0)];
    assert_eq!(resolve_duration(&samples), Ok(0));
}

#[test]
fn resolve_reports_unavailable_not_zero() {
    let samples: Vec<Option<u64>> = vec![None; MAX_DURATION_ATTEMPTS as usize];
    assert_eq!(resolve_duration(&samples), Err(EditorError::DurationUnavailable));
}

#[test]
fn resolve_empty_transcript_is_unavailable() {
    let samples: Vec<Option<u64>> = Vec::new();
    assert_eq!(resolve_duration(&samples), Err(EditorError::DurationUnavailable));
}
