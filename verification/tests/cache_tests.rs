use open_wechat::cache::{CredentialCache, FetchParams, GetStep, Variant};
use open_wechat::error::Error;
use open_wechat::token::FetchedToken;

fn token(secret: &str, ttl: u64) -> FetchedToken {
    FetchedToken::new(secret.to_string(), ttl).unwrap()
}

fn cache(policy: Variant, secret: &str, ttl: u64, now: u64) -> CredentialCache {
    CredentialCache::construct(policy, Ok(token(secret, ttl)), now).unwrap()
}

#[test]
fn scenario_construct_then_refresh_once() {
    // Construct with ttl=10s at t=0; the source returned "A".
    let mut c = cache(Variant::Standard, "A", 10, 0);

    // get() at t=0 serves "A" without any network call.
    match c.get_step(0) {
        GetStep::Fresh(s) => assert_eq!(s, "A"),
        _ => panic!("expected the cached secret"),
    }
    assert!(!c.is_refreshing());

    // At t=11 two callers arrive: the first leads, the second waits,
    // so the source is called exactly once.
    match c.get_step(11) {
        GetStep::Lead(FetchParams::Standard) => {}
        _ => panic!("expected the first caller to lead"),
    }
    assert!(matches!(c.get_step(11), GetStep::Wait));

    // The source answers "B"/ttl=10; both callers end up with "B".
    let leader_secret = c.complete_refresh(token("B", 10), 11);
    assert_eq!(leader_secret, "B");
    match c.get_step(11) {
        GetStep::Fresh(s) => assert_eq!(s, "B"),
        _ => panic!("expected the woken follower to read the new secret"),
    }
}

#[test]
fn expiry_arithmetic_window() {
    // ttl = 3600s returned at simulated time T0.
    let t0: u64 = 1000;
    let mut c = cache(Variant::Standard, "tok", 3600, t0);

    // At T0+3599 the cached secret is served with zero fetch calls.
    match c.get_step(t0 + 3599) {
        GetStep::Fresh(s) => assert_eq!(s, "tok"),
        _ => panic!("expected the cached secret just before expiry"),
    }
    assert!(!c.is_refreshing());

    // At T0+3601 exactly one fetch is triggered.
    assert!(matches!(c.get_step(t0 + 3601), GetStep::Lead(_)));
    assert!(matches!(c.get_step(t0 + 3601), GetStep::Wait));
}

#[test]
fn expiry_boundary_is_expired() {
    // The token expires at exactly now + ttl: an evaluation at that instant
    // already triggers a refresh.
    let mut c = cache(Variant::Standard, "tok", 10, 0);
    assert!(matches!(c.get_step(9), GetStep::Fresh(_)));
    assert!(matches!(c.get_step(10), GetStep::Lead(_)));
}

#[test]
fn no_deadlock_after_failed_refresh() {
    let mut c = cache(Variant::Standard, "A", 10, 0);

    // A caller leads a refresh; the source fails.
    assert!(matches!(c.get_step(20), GetStep::Lead(_)));
    c.abort_refresh();

    // A subsequent get() triggers a new fetch attempt instead of hanging.
    assert!(!c.is_refreshing());
    match c.get_step(21) {
        GetStep::Lead(FetchParams::Standard) => {}
        _ => panic!("expected a new leader after the failure"),
    }
    // And that retry can succeed as usual.
    let s = c.complete_refresh(token("C", 10), 21);
    assert_eq!(s, "C");
}

#[test]
fn atomic_commit_pair() {
    let mut c = cache(Variant::Standard, "A", 10, 0);
    assert_eq!(c.expires_at(), 10);

    // While the leader's fetch is outstanding, readers still observe the
    // old secret paired with the old expiry.
    assert!(matches!(c.get_step(10), GetStep::Lead(_)));
    assert_eq!(c.expires_at(), 10);
    assert_eq!(c.fresh_secret(9).as_deref(), Some("A"));

    // After the commit both halves change together.
    c.complete_refresh(token("B", 20), 10);
    assert_eq!(c.expires_at(), 30);
    assert_eq!(c.fresh_secret(29).as_deref(), Some("B"));
    assert_eq!(c.fresh_secret(30), None);
}

#[test]
fn stable_flag_forwarded_on_next_natural_refresh() {
    let mut c = cache(Variant::Stable { force_refresh: None }, "A", 10, 0);

    // Setting the flag while the token is valid triggers nothing.
    c.set_force_refresh(true);
    assert!(!c.is_refreshing());
    assert_eq!(c.expires_at(), 10);
    assert_eq!(c.fresh_secret(5).as_deref(), Some("A"));

    // Once natural expiry triggers a refresh, the fetch carries the flag.
    match c.get_step(10) {
        GetStep::Lead(FetchParams::Stable { force_refresh }) => {
            assert_eq!(force_refresh, Some(true));
        }
        _ => panic!("expected a stable-policy fetch with the stored flag"),
    }
}

#[test]
fn stable_flag_can_be_cleared() {
    let mut c = cache(Variant::Stable { force_refresh: Some(true) }, "A", 10, 0);
    c.set_force_refresh(false);
    match c.get_step(10) {
        GetStep::Lead(FetchParams::Stable { force_refresh }) => {
            assert_eq!(force_refresh, Some(false));
        }
        _ => panic!("expected a stable-policy fetch with the stored flag"),
    }
}

#[test]
fn standard_policy_ignores_force_refresh() {
    let mut c = cache(Variant::Standard, "A", 10, 0);
    c.set_force_refresh(true);
    assert!(matches!(c.policy(), Variant::Standard));
    assert!(matches!(c.get_step(10), GetStep::Lead(FetchParams::Standard)));
}

#[test]
fn construct_passes_the_source_error_through() {
    let failed: Result<FetchedToken, Error> =
        Err(Error::SourceUnavailable("connection refused".to_string()));
    let r = CredentialCache::construct(Variant::Standard, failed, 0);
    match r {
        Err(Error::SourceUnavailable(m)) => assert_eq!(m, "connection refused"),
        _ => panic!("expected construction to surface the source's error"),
    }
}

#[test]
fn empty_secret_is_a_source_failure() {
    match FetchedToken::new(String::new(), 5) {
        Err(Error::SourceUnavailable(m)) => assert_eq!(m, "empty secret"),
        _ => panic!("expected an empty secret to be rejected"),
    }
}

#[test]
fn expiry_near_the_clock_limit() {
    let now = u64::MAX - 5;
    let mut c = cache(Variant::Standard, "A", 5, now);
    assert_eq!(c.expires_at(), u64::MAX);
    assert!(matches!(c.get_step(u64::MAX - 1), GetStep::Fresh(_)));
    assert!(matches!(c.get_step(u64::MAX), GetStep::Lead(_)));
}

#[test]
fn refresh_leadership_is_exclusive_until_released() {
    let mut c = cache(Variant::Standard, "A", 1, 0);
    assert!(matches!(c.get_step(5), GetStep::Lead(_)));
    // Every further expired caller waits, at any instant.
    assert!(matches!(c.get_step(5), GetStep::Wait));
    assert!(matches!(c.get_step(100), GetStep::Wait));
    assert!(c.is_refreshing());
    c.abort_refresh();
    assert!(!c.is_refreshing());
}
