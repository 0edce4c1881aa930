use alice_presence::session::{CloseReason, Session, SessionConfig, SessionState};

#[test]
fn new_session_is_idle() {
    let s = Session::new(1, 1000, SessionConfig::default());
    assert_eq!(s.state, SessionState::Idle);
    assert!(s.is_active());
    assert!(s.close_reason.is_none());
    assert_ne!(s.session_id, 0);
}

#[test]
fn full_happy_path() {
    let mut s = Session::new(1, 1000, SessionConfig::default());
    assert!(s.discover(2, 2000));
    assert_eq!(s.state, SessionState::Discovering);
    assert_eq!(s.remote_id, Some(2));

    assert!(s.begin_exchange(3000));
    assert_eq!(s.state, SessionState::Exchanging);

    assert!(s.verify(4000));
    assert_eq!(s.state, SessionState::Verified);

    assert!(s.close(CloseReason::Success, 5000));
    assert_eq!(s.state, SessionState::Closed);
    assert_eq!(s.close_reason, Some(CloseReason::Success));
    assert!(!s.is_active());
}

#[test]
fn invalid_transition_discover_from_exchanging() {
    let mut s = Session::new(1, 1000, SessionConfig::default());
    s.discover(2, 2000);
    s.begin_exchange(3000);
    assert!(!s.discover(3, 4000)); // can't discover while exchanging
}

#[test]
fn invalid_transition_verify_from_idle() {
    let mut s = Session::new(1, 1000, SessionConfig::default());
    assert!(!s.verify(2000)); // can't verify from idle
}

#[test]
fn invalid_transition_exchange_from_idle() {
    let mut s = Session::new(1, 1000, SessionConfig::default());
    assert!(!s.begin_exchange(2000));
}

#[test]
fn double_close_rejected() {
    let mut s = Session::new(1, 1000, SessionConfig::default());
    assert!(s.close(CloseReason::Cancelled, 2000));
    assert!(!s.close(CloseReason::Success, 3000));
    assert_eq!(s.close_reason, Some(CloseReason::Cancelled));
}

#[test]
fn timeout_discovering() {
    let cfg = SessionConfig { discovery_timeout_ns: 1000, ..Default::default() };
    let mut s = Session::new(1, 0, cfg);
    s.discover(2, 100);
    assert!(!s.is_timed_out(500));
    assert!(s.is_timed_out(1200));
}

#[test]
fn timeout_exchanging() {
    let cfg = SessionConfig { exchange_timeout_ns: 2000, ..Default::default() };
    let mut s = Session::new(1, 0, cfg);
    s.discover(2, 100);
    s.begin_exchange(200);
    assert!(!s.is_timed_out(1000));
    assert!(s.is_timed_out(2300));
}

#[test]
fn no_timeout_when_idle_or_closed() {
    let s = Session::new(1, 0, SessionConfig::default());
    assert!(!s.is_timed_out(999_999_999_999));

    let mut s2 = Session::new(1, 0, SessionConfig::default());
    s2.close(CloseReason::Cancelled, 100);
    assert!(!s2.is_timed_out(999_999_999_999));
}

#[test]
fn retry_limit() {
    let cfg = SessionConfig { max_retries: 2, ..Default::default() };
    let mut s = Session::new(1, 0, cfg);
    assert!(s.retry()); // 1
    assert!(s.retry()); // 2
    assert!(!s.retry()); // exceeded
}

#[test]
fn duration_tracking() {
    let s = Session::new(1, 1000, SessionConfig::default());
    assert_eq!(s.state_duration_ns(3000), 2000);
    assert_eq!(s.total_duration_ns(5000), 4000);
}

#[test]
fn content_hash_changes_on_transition() {
    let mut s = Session::new(1, 1000, SessionConfig::default());
    let h1 = s.content_hash;
    s.discover(2, 2000);
    let h2 = s.content_hash;
    assert_ne!(h1, h2);
    s.begin_exchange(3000);
    let h3 = s.content_hash;
    assert_ne!(h2, h3);
}

#[test]
fn content_hash_determinism() {
    let s1 = Session::new(1, 1000, SessionConfig::default());
    let s2 = Session::new(1, 1000, SessionConfig::default());
    assert_eq!(s1.content_hash, s2.content_hash);
    assert_eq!(s1.session_id, s2.session_id);
}

#[test]
fn close_from_any_active_state() {
    // From Discovering
    let mut s1 = Session::new(1, 0, SessionConfig::default());
    s1.discover(2, 100);
    assert!(s1.close(CloseReason::ProximityFailed, 200));

    // From Exchanging
    let mut s2 = Session::new(1, 0, SessionConfig::default());
    s2.discover(2, 100);
    s2.begin_exchange(200);
    assert!(s2.close(CloseReason::VerificationFailed, 300));

    // From Verified
    let mut s3 = Session::new(1, 0, SessionConfig::default());
    s3.discover(2, 100);
    s3.begin_exchange(200);
    s3.verify(300);
    assert!(s3.close(CloseReason::Success, 400));
}

#[test]
fn duration_clock_backwards_is_zero() {
    let s = Session::new(1, 5000, SessionConfig::default());
    assert_eq!(s.state_duration_ns(4000), 0);
    assert_eq!(s.total_duration_ns(0), 0);
}

#[test]
fn timeout_boundary_is_exclusive() {
    let cfg = SessionConfig { discovery_timeout_ns: 1000, ..Default::default() };
    let mut s = Session::new(1, 0, cfg);
    s.discover(2, 100);
    // Exactly at the timeout is not yet timed out; one past it is.
    assert!(!s.is_timed_out(1100));
    assert!(s.is_timed_out(1101));
}
