use openab::flow::{start, step, AccessAction, AccessEvent, AccessState};
use openab::rfc3339::UtcInstant;
use openab::token::{KiroAuthResult, Registration, RefreshResponse, TokenData};

const NOW: UtcInstant = UtcInstant { secs: 1_767_290_645, nanos: 0 }; // 2026-01-01T18:04:05Z
const NOW_MS: u64 = 1_767_290_645_000;

fn token(access: &str, expires_at: &str) -> TokenData {
    TokenData {
        access_token: access.to_string(),
        expires_at: expires_at.to_string(),
        refresh_token: "rt".to_string(),
        region: String::new(),
        start_url: String::new(),
        oauth_flow: String::new(),
        scopes: Vec::new(),
    }
}

fn registration(region: &str) -> Registration {
    Registration {
        client_id: "cid".to_string(),
        client_secret: "SECRET-REDACTED".to_string(),
        region: region.to_string(),
    }
}

/// Feed the events in order and collect every action the machine asks for.
fn run(events: Vec<AccessEvent>) -> Vec<AccessAction> {
    let (mut state, first) = start();
    let mut actions = vec![first];
    for e in events {
        let (next, action) = step(state, e);
        state = next;
        actions.push(action);
    }
    assert!(matches!(state, AccessState::Done));
    actions
}

fn finished(actions: &[AccessAction]) -> Option<KiroAuthResult> {
    match actions.last() {
        Some(AccessAction::Finish(r)) => r.clone(),
        other => panic!("not finished: {other:?}"),
    }
}

#[test]
fn valid_token_is_returned_without_refresh() {
    let actions = run(vec![
        AccessEvent::Opened(true),
        AccessEvent::TokenLoaded { token: Some(token("at", "2026-01-01T19:00:00Z")), now: NOW },
        AccessEvent::ProfileLoaded(Some("arn:p".to_string())),
    ]);
    assert!(matches!(actions[0], AccessAction::OpenDatabase { read_only: false }));
    assert!(matches!(actions[1], AccessAction::ReadToken));
    assert!(matches!(actions[2], AccessAction::ReadProfileArn));
    let r = finished(&actions).unwrap();
    assert_eq!(r.access_token, "at");
    assert_eq!(r.expires_at, "2026-01-01T19:00:00Z");
    assert_eq!(r.profile_arn.as_deref(), Some("arn:p"));
}

#[test]
fn missing_database_or_token_gives_nothing() {
    assert!(finished(&run(vec![AccessEvent::Opened(false)])).is_none());
    let actions = run(vec![
        AccessEvent::Opened(true),
        AccessEvent::TokenLoaded { token: None, now: NOW },
    ]);
    assert!(finished(&actions).is_none());
}

#[test]
fn expired_token_within_cooldown_is_not_refreshed() {
    let actions = run(vec![
        AccessEvent::Opened(true),
        AccessEvent::TokenLoaded { token: Some(token("at", "2026-01-01T18:00:00Z")), now: NOW },
        AccessEvent::ClockRead { now_ms: NOW_MS, last_failure_ms: NOW_MS - 29_999 },
    ]);
    assert!(matches!(actions[2], AccessAction::ReadClock));
    assert!(finished(&actions).is_none());
    assert!(!actions.iter().any(|a| matches!(a, AccessAction::SendRefresh(_))));
}

#[test]
fn expired_token_is_refreshed_through_oidc() {
    let actions = run(vec![
        AccessEvent::Opened(true),
        AccessEvent::TokenLoaded { token: Some(token("old", "garbage")), now: NOW },
        AccessEvent::ClockRead { now_ms: NOW_MS, last_failure_ms: NOW_MS - 30_000 },
        AccessEvent::RegistrationLoaded(Some(registration(""))),
        AccessEvent::RefreshReplied {
            response: Some(RefreshResponse {
                access_token: "new".to_string(),
                refresh_token: None,
                expires_in: 3600,
            }),
            now: NOW,
        },
        AccessEvent::Completed,
        AccessEvent::ProfileLoaded(None),
    ]);
    match &actions[4] {
        AccessAction::SendRefresh(req) => {
            assert_eq!(req.endpoint, "https://oidc.us-east-1.amazonaws.com/token");
            assert_eq!(req.refresh_token, "rt");
        }
        other => panic!("expected a refresh request, got {other:?}"),
    }
    match &actions[5] {
        AccessAction::StoreRefreshed(t) => {
            assert_eq!(t.access_token, "new");
            assert_eq!(t.expires_at, "2026-01-01T19:04:05+00:00");
            assert_eq!(t.refresh_token, "rt");
        }
        other => panic!("expected the token to be stored, got {other:?}"),
    }
    let r = finished(&actions).unwrap();
    assert_eq!(r.access_token, "new");
    assert_eq!(r.expires_at, "2026-01-01T19:04:05+00:00");
    assert_eq!(r.profile_arn, None);
}

#[test]
fn malformed_region_falls_back_to_whoami() {
    let actions = run(vec![
        AccessEvent::Opened(true),
        AccessEvent::TokenLoaded { token: Some(token("old", "2020-01-01T00:00:00Z")), now: NOW },
        AccessEvent::ClockRead { now_ms: NOW_MS, last_failure_ms: 0 },
        AccessEvent::RegistrationLoaded(Some(registration("evil.example"))),
        AccessEvent::ProfileLoaded(Some("arn:first".to_string())),
        AccessEvent::Opened(true),
        AccessEvent::TokenLoaded { token: Some(token("fresh", "2026-01-01T19:00:00Z")), now: NOW },
        AccessEvent::Completed,
        AccessEvent::ProfileLoaded(None),
    ]);
    assert!(!actions.iter().any(|a| matches!(a, AccessAction::SendRefresh(_))));
    assert!(matches!(actions[4], AccessAction::ReadProfileArn));
    assert!(matches!(actions[5], AccessAction::RunWhoami));
    assert!(matches!(actions[7], AccessAction::ClearRefreshFailure));
    let r = finished(&actions).unwrap();
    assert_eq!(r.access_token, "fresh");
    // The reopened database had no profile: the first reading is kept.
    assert_eq!(r.profile_arn.as_deref(), Some("arn:first"));
}

#[test]
fn failed_fallback_records_the_failure() {
    let actions = run(vec![
        AccessEvent::Opened(true),
        AccessEvent::TokenLoaded { token: Some(token("old", "2020-01-01T00:00:00Z")), now: NOW },
        AccessEvent::ClockRead { now_ms: NOW_MS, last_failure_ms: 0 },
        AccessEvent::RegistrationLoaded(Some(registration("eu-west-1"))),
        AccessEvent::RefreshReplied { response: None, now: NOW },
        AccessEvent::ProfileLoaded(None),
        AccessEvent::Opened(true),
        AccessEvent::TokenLoaded { token: Some(token("old", "2020-01-01T00:00:00Z")), now: NOW },
        AccessEvent::Completed,
    ]);
    assert!(matches!(actions[8], AccessAction::RecordRefreshFailure(ms) if ms == NOW_MS));
    assert!(finished(&actions).is_none());
}

#[test]
fn fallback_prefers_new_profile_arn() {
    let actions = run(vec![
        AccessEvent::Opened(true),
        AccessEvent::TokenLoaded { token: Some(token("old", "2020-01-01T00:00:00Z")), now: NOW },
        AccessEvent::ClockRead { now_ms: NOW_MS, last_failure_ms: 0 },
        AccessEvent::RegistrationLoaded(None),
        AccessEvent::ProfileLoaded(Some("arn:first".to_string())),
        AccessEvent::Opened(true),
        AccessEvent::TokenLoaded { token: Some(token("fresh", "2026-01-01T19:00:00Z")), now: NOW },
        AccessEvent::Completed,
        AccessEvent::ProfileLoaded(Some("arn:second".to_string())),
    ]);
    assert_eq!(finished(&actions).unwrap().profile_arn.as_deref(), Some("arn:second"));
}

#[test]
fn unexpected_event_ends_without_token() {
    let (state, _) = start();
    let (state, action) = step(state, AccessEvent::Completed);
    assert!(matches!(state, AccessState::Done));
    assert!(matches!(action, AccessAction::Finish(None)));
}

#[test]
fn expiry_out_of_range_is_reported() {
    let actions = run(vec![
        AccessEvent::Opened(true),
        AccessEvent::TokenLoaded { token: Some(token("old", "2020-01-01T00:00:00Z")), now: NOW },
        AccessEvent::ClockRead { now_ms: NOW_MS, last_failure_ms: 0 },
        AccessEvent::RegistrationLoaded(Some(registration("us-west-2"))),
        AccessEvent::RefreshReplied {
            response: Some(RefreshResponse {
                access_token: "new".to_string(),
                refresh_token: None,
                expires_in: 9_000_000_000_000,
            }),
            now: NOW,
        },
    ]);
    assert!(matches!(actions.last(), Some(AccessAction::ExpiryOutOfRange)));
}

#[test]
fn failed_reopen_after_whoami_arms_cooldown() {
    let actions = run(vec![
        AccessEvent::Opened(true),
        AccessEvent::TokenLoaded { token: Some(token("old", "2020-01-01T00:00:00Z")), now: NOW },
        AccessEvent::ClockRead { now_ms: NOW_MS, last_failure_ms: 0 },
        AccessEvent::RegistrationLoaded(None),
        AccessEvent::ProfileLoaded(None),
        AccessEvent::Opened(false),
        AccessEvent::Completed,
    ]);
    assert!(matches!(actions[5], AccessAction::RunWhoami));
    assert!(matches!(actions[6], AccessAction::RecordRefreshFailure(ms) if ms == NOW_MS));
    assert!(finished(&actions).is_none());
}

#[test]
fn missing_token_after_whoami_arms_cooldown() {
    let actions = run(vec![
        AccessEvent::Opened(true),
        AccessEvent::TokenLoaded { token: Some(token("old", "2020-01-01T00:00:00Z")), now: NOW },
        AccessEvent::ClockRead { now_ms: NOW_MS, last_failure_ms: 0 },
        AccessEvent::RegistrationLoaded(Some(registration("eu-west-1"))),
        AccessEvent::RefreshReplied { response: None, now: NOW },
        AccessEvent::ProfileLoaded(None),
        AccessEvent::Opened(true),
        AccessEvent::TokenLoaded { token: None, now: NOW },
        AccessEvent::Completed,
    ]);
    assert!(matches!(actions[8], AccessAction::RecordRefreshFailure(ms) if ms == NOW_MS));
    assert!(finished(&actions).is_none());
}
