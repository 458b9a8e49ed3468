use codevault::protocol::CacheAction;
use codevault::protocol::DemoDecision;
use codevault::protocol::LicenseCacheRecord;
use codevault::protocol::ServerReply;
use codevault::protocol::ValidationOutcome;
use codevault::protocol::check_demo_timer;
use codevault::protocol::decide_validation;
use codevault::protocol::fingerprint_input;
use codevault::protocol::license_bypassed;

fn cache(valid: bool, last_validated: u64) -> LicenseCacheRecord {
    LicenseCacheRecord { last_validated, valid, hwid: "hw".to_string() }
}

#[test]
fn demo_key_bypasses_validation() {
    assert!(license_bypassed("DEMO"));
    assert!(license_bypassed(""));
    assert!(!license_bypassed("demo"));
    assert!(!license_bypassed("REAL-KEY"));
    // the bypass holds whatever reply or cache is at hand
    let stale = cache(false, 0);
    let (outcome, action) = decide_validation("DEMO", None, Some(&stale), 1_000_000);
    assert!(matches!(outcome, ValidationOutcome::Proceed));
    assert!(matches!(action, CacheAction::Keep));
    let reply = ServerReply::Rejected("revoked".to_string());
    let (outcome2, _) = decide_validation("", Some(&reply), None, 5);
    assert!(matches!(outcome2, ValidationOutcome::Proceed));
}

#[test]
fn accepted_reply_proceeds_and_caches() {
    let (outcome, action) = decide_validation("KEY", Some(&ServerReply::Accepted), None, 100);
    assert!(matches!(outcome, ValidationOutcome::Proceed));
    assert!(matches!(action, CacheAction::StoreValid));
}

#[test]
fn grace_window_twenty_three_hours_proceeds() {
    let c = cache(true, 1_000);
    let now = 1_000 + 23 * 3600;
    let (outcome, action) = decide_validation("KEY", None, Some(&c), now);
    match outcome {
        ValidationOutcome::ProceedOffline(hours) => assert_eq!(hours, 1),
        _ => panic!("expected the offline grace path"),
    }
    assert!(matches!(action, CacheAction::Keep));
}

#[test]
fn grace_window_twenty_five_hours_fails() {
    let c = cache(true, 1_000);
    let now = 1_000 + 25 * 3600;
    let (outcome, _) = decide_validation("KEY", None, Some(&c), now);
    match outcome {
        ValidationOutcome::Terminate(m) => {
            assert_eq!(
                m,
                "Cannot verify license. Please ensure the license server is reachable."
            );
        }
        _ => panic!("expected termination after the grace window"),
    }
}

#[test]
fn invalid_cache_or_no_cache_fails_offline() {
    let c = cache(false, 1_000);
    let (outcome, _) = decide_validation("KEY", None, Some(&c), 1_001);
    assert!(matches!(outcome, ValidationOutcome::Terminate(_)));
    let (outcome2, _) = decide_validation("KEY", None, None, 1_001);
    assert!(matches!(outcome2, ValidationOutcome::Terminate(_)));
}

#[test]
fn revocation_overrides_fresh_cache() {
    let c = cache(true, 1_000);
    let reply = ServerReply::Rejected("revoked".to_string());
    let (outcome, action) = decide_validation("KEY", Some(&reply), Some(&c), 1_001);
    match outcome {
        ValidationOutcome::Terminate(m) => assert_eq!(m, "revoked"),
        _ => panic!("a rejection must terminate even under a fresh cache"),
    }
    assert!(matches!(action, CacheAction::StoreInvalid));
}

#[test]
fn demo_timer_sixty_minutes_boundary() {
    let start = 10_000;
    match check_demo_timer(60, Some(start), start + 61 * 60) {
        DemoDecision::Expired => {}
        _ => panic!("sixty-one minutes past the marker must expire"),
    }
    match check_demo_timer(60, Some(start), start + 59 * 60) {
        DemoDecision::Running { remaining_minutes } => assert_eq!(remaining_minutes, 1),
        _ => panic!("fifty-nine minutes past the marker must still run"),
    }
}

#[test]
fn demo_timer_first_run_and_future_marker() {
    match check_demo_timer(30, None, 42) {
        DemoDecision::FirstRun { start, remaining_minutes } => {
            assert_eq!(start, 42);
            assert_eq!(remaining_minutes, 30);
        }
        _ => panic!("no marker means a first run"),
    }
    match check_demo_timer(30, Some(1_000), 999) {
        DemoDecision::Running { remaining_minutes } => assert_eq!(remaining_minutes, 30),
        _ => panic!("a marker in the future leaves the whole trial"),
    }
    // a zero-length trial is expired at once
    assert!(matches!(check_demo_timer(0, Some(5), 5), DemoDecision::Expired));
}

#[test]
fn fingerprint_joins_with_bars() {
    let parts = vec!["host".to_string(), "linux".to_string(), "x86_64".to_string()];
    assert_eq!(fingerprint_input(&parts), "host|linux|x86_64");
    assert_eq!(fingerprint_input(&vec!["one".to_string()]), "one");
    assert_eq!(fingerprint_input(&Vec::new()), "");
}
