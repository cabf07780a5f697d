use lytt::jobs::JobTracker;

#[test]
fn claim_is_exclusive_until_the_job_finishes() {
    let mut jobs = JobTracker::new();
    assert!(!jobs.is_processing("abc"));
    assert!(jobs.try_claim("abc".to_string()));
    assert!(jobs.is_processing("abc"));
    assert!(!jobs.try_claim("abc".to_string()));
    assert!(jobs.is_processing("abc"));
    jobs.finish("abc", Ok(()));
    assert!(!jobs.is_processing("abc"));
    assert!(jobs.try_claim("abc".to_string()));
}

#[test]
fn claims_of_different_media_are_independent() {
    let mut jobs = JobTracker::new();
    assert!(jobs.try_claim("a".to_string()));
    assert!(jobs.try_claim("b".to_string()));
    jobs.finish("a", Err("boom".to_string()));
    assert!(jobs.is_processing("b"));
    assert_eq!(jobs.failure("b"), None);
    assert_eq!(jobs.failure("a"), Some("boom".to_string()));
}

#[test]
fn failure_is_recorded_and_cleared_by_a_success() {
    let mut jobs = JobTracker::new();
    assert_eq!(jobs.failure("vid"), None);
    assert!(jobs.try_claim("vid".to_string()));
    jobs.finish("vid", Err("download failed".to_string()));
    assert_eq!(jobs.failure("vid"), Some("download failed".to_string()));
    assert!(jobs.try_claim("vid".to_string()));
    // A claim leaves the recorded failure in place.
    assert_eq!(jobs.failure("vid"), Some("download failed".to_string()));
    jobs.finish("vid", Ok(()));
    assert_eq!(jobs.failure("vid"), None);
}

#[test]
fn a_later_failure_replaces_the_earlier_message() {
    let mut jobs = JobTracker::new();
    jobs.finish("x", Err("first".to_string()));
    jobs.finish("x", Err("second".to_string()));
    assert_eq!(jobs.failure("x"), Some("second".to_string()));
}
