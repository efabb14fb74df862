use garmin_export::error::ApiError;
use garmin_export::retry::{judge, Verdict, MAX_ATTEMPTS};

#[test]
fn a_call_has_three_attempts() {
    assert_eq!(MAX_ATTEMPTS, 3);
}

#[test]
fn a_refused_call_with_attempts_left_signs_in_again() {
    assert_eq!(judge(3, ApiError::Forbidden), Verdict::Reauthenticate { trials: 2 });
    assert_eq!(judge(2, ApiError::Forbidden), Verdict::Reauthenticate { trials: 1 });
}

#[test]
fn a_refused_call_on_its_last_attempt_is_reported() {
    assert_eq!(judge(1, ApiError::Forbidden), Verdict::Return);
    assert_eq!(judge(0, ApiError::Forbidden), Verdict::Return);
}

#[test]
fn other_errors_get_the_verdict_return() {
    assert_eq!(judge(3, ApiError::Http(500)), Verdict::Return);
    assert_eq!(judge(3, ApiError::Http(404)), Verdict::Return);
    assert_eq!(judge(3, ApiError::DecodeFailed), Verdict::Return);
}

#[test]
fn statuses_are_classified() {
    assert_eq!(ApiError::from_status(403), ApiError::Forbidden);
    assert_eq!(ApiError::from_status(401), ApiError::Http(401));
    assert_eq!(ApiError::from_status(500), ApiError::Http(500));
}
