use openab::clock::{millis_or_zero, now_ms, time_since_epoch};
use openab::region::valid_region;
use openab::rfc3339::{
    choose_parse, current_instant, expired_by, instant_from_reading, expires_at_ms, is_expired, is_expired_at,
    millis_u64, parse_rfc3339, refresh_expiry, strip_fractional_seconds, ParsedDateTime,
    UtcInstant,
};
use openab::token::{
    auth_response, choose_profile_arn, try_auth_response, db_path, default_expires_in, oidc_token_endpoint,
    profile_arn_from_raw, refresh_request, refreshed_token, KiroAuthResult, Registration,
    RefreshResponse, TokenData,
};

fn token(expires_at: &str) -> TokenData {
    TokenData {
        access_token: "at-old".to_string(),
        expires_at: expires_at.to_string(),
        refresh_token: "rt-old".to_string(),
        region: "us-east-1".to_string(),
        start_url: "https://start.example".to_string(),
        oauth_flow: "device".to_string(),
        scopes: vec!["codewhisperer:completions".to_string()],
    }
}

fn registration(region: &str) -> Registration {
    Registration {
        client_id: "cid".to_string(),
        client_secret: "SECRET-REDACTED".to_string(),
        region: region.to_string(),
    }
}

#[test]
fn region_validation_rejects_injection() {
    assert!(valid_region("us-east-1"));
    assert!(valid_region("ap-northeast-3"));
    assert!(!valid_region(""));
    assert!(!valid_region("us-east-1.evil.example"));
    assert!(!valid_region("US-EAST-1"));
    assert!(!valid_region("us east 1"));
    assert!(!valid_region("us-east-1/../../etc"));
    assert!(!valid_region(&"a".repeat(65)));
}

#[test]
fn region_length_limit_is_inclusive() {
    assert!(valid_region(&"a".repeat(64)));
    assert!(valid_region("-"));
    assert!(!valid_region("é"));
}

#[test]
fn fractional_second_fallback_preserves_offset() {
    // Full precision parses directly.
    assert!(parse_rfc3339("2026-01-02T03:04:05.123456789Z").is_some());
    // Over-precise fractional seconds must never have their offset
    // reinterpreted as UTC.
    let dt = parse_rfc3339("2026-01-02T03:04:05.99999999999+08:00")
        .expect("over-precise fractional seconds should parse");
    assert_eq!(
        chrono::FixedOffset::east_opt(dt.offset_secs).unwrap().to_string(),
        "+08:00"
    );
    assert_eq!(
        dt.secs,
        parse_rfc3339("2026-01-01T19:04:05Z").unwrap().secs,
        "+08:00 instant must equal its UTC equivalent"
    );
    // Garbage stays garbage.
    assert!(parse_rfc3339("not a date").is_none());
}

#[test]
fn strip_keeps_designator() {
    assert_eq!(
        strip_fractional_seconds("2026-01-02T03:04:05.99999999999+08:00").as_deref(),
        Some("2026-01-02T03:04:05+08:00")
    );
    assert_eq!(
        strip_fractional_seconds("2026-01-02T03:04:05.5Z").as_deref(),
        Some("2026-01-02T03:04:05Z")
    );
    assert_eq!(
        strip_fractional_seconds("2026-01-02T03:04:05.5z").as_deref(),
        Some("2026-01-02T03:04:05z")
    );
    assert_eq!(
        strip_fractional_seconds("2026-01-02T03:04:05.1234-05:30").as_deref(),
        Some("2026-01-02T03:04:05-05:30")
    );
    // No dot, or no designator after the dot.
    assert_eq!(strip_fractional_seconds("2026-01-02T03:04:05Z"), None);
    assert_eq!(strip_fractional_seconds("2026-01-02T03:04:05.123"), None);
    assert_eq!(strip_fractional_seconds(""), None);
}

#[test]
fn parse_reads_instant_and_offset() {
    let dt = parse_rfc3339("1970-01-01T00:00:01.5+01:00").unwrap();
    assert_eq!(dt.secs, 1 - 3600);
    assert_eq!(dt.nanos, 500_000_000);
    assert_eq!(dt.offset_secs, 3600);
    assert_eq!(parse_rfc3339("2026-01-01T19:04:05Z").unwrap().secs, 1_767_294_245);
}

#[test]
fn expiry_in_milliseconds() {
    assert_eq!(expires_at_ms("1970-01-01T00:00:01.5Z"), Some(1_500));
    assert_eq!(expires_at_ms("2026-01-01T19:04:05Z"), Some(1_767_294_245_000));
    assert_eq!(expires_at_ms("2026-01-02T03:04:05.99999999999+08:00"), Some(1_767_294_245_999));
    // Before the epoch the millisecond count wraps the way `as u64` does.
    assert_eq!(expires_at_ms("1969-12-31T23:59:59Z"), Some((-1000i64) as u64));
    assert_eq!(expires_at_ms("soon"), None);
}

#[test]
fn expiry_checks() {
    let at = |secs: i64, nanos: u32| UtcInstant { secs, nanos };
    let exp = "1970-01-01T00:00:10Z";
    assert!(!is_expired_at(exp, at(9, 999_999_999)));
    assert!(is_expired_at(exp, at(10, 0)));
    assert!(is_expired_at(exp, at(11, 0)));
    // Unparseable expiry counts as expired.
    assert!(is_expired_at("garbage", at(0, 0)));
    assert!(is_expired("garbage"));
    assert!(is_expired("2000-01-01T00:00:00Z"));
    assert!(!is_expired("9999-01-01T00:00:00Z"));
}

#[test]
fn clock_reads_after_epoch() {
    assert!(now_ms() > 1_600_000_000_000);
    let now = current_instant().expect("the clock reads after the epoch");
    assert!(now.secs > 1_600_000_000);
    assert!(now.nanos < 1_000_000_000);
    assert_eq!(millis_or_zero(None), 0);
    assert_eq!(millis_or_zero(Some(42)), 42);
    assert_eq!(millis_or_zero(Some((1u128 << 64) + 7)), 7);
}

#[test]
fn refresh_expiry_adds_lifetime() {
    let now = UtcInstant { secs: 1_767_290_645, nanos: 0 };
    assert_eq!(
        refresh_expiry(now, 3600).as_deref(),
        Some("2026-01-01T19:04:05+00:00")
    );
    assert_eq!(
        refresh_expiry(UtcInstant { secs: 0, nanos: 500_000_000 }, 1).as_deref(),
        Some("1970-01-01T00:00:01.500+00:00")
    );
    // Out of chrono's range, or a lifetime too large for a TimeDelta.
    assert_eq!(refresh_expiry(now, u64::MAX / 2), None);
    assert_eq!(refresh_expiry(now, 9_223_372_036_854_775), None);
}

#[test]
fn default_lifetime_is_an_hour() {
    assert_eq!(default_expires_in(), 3600);
}

#[test]
fn db_path_honors_env_override() {
    assert_eq!(
        db_path(Some("/opt/kiro-data/"), Some("/home/nobody")).as_deref(),
        Some("/opt/kiro-data/data.sqlite3")
    );
    assert_eq!(
        db_path(None, Some("/home/nobody")).as_deref(),
        Some("/home/nobody/.local/share/kiro-cli/data.sqlite3")
    );
    assert_eq!(db_path(None, None), None);
}

#[test]
fn db_path_edge_cases() {
    // An empty override falls back to HOME.
    assert_eq!(
        db_path(Some(""), Some("/h")).as_deref(),
        Some("/h/.local/share/kiro-cli/data.sqlite3")
    );
    assert_eq!(db_path(Some(""), None), None);
    // Every trailing slash goes.
    assert_eq!(db_path(Some("/d///"), None).as_deref(), Some("/d/data.sqlite3"));
    assert_eq!(db_path(Some("/"), None).as_deref(), Some("/data.sqlite3"));
}

#[test]
fn oidc_endpoint_by_region() {
    assert_eq!(
        oidc_token_endpoint("eu-west-1").as_deref(),
        Some("https://oidc.eu-west-1.amazonaws.com/token")
    );
    assert_eq!(
        oidc_token_endpoint("").as_deref(),
        Some("https://oidc.us-east-1.amazonaws.com/token")
    );
    assert_eq!(oidc_token_endpoint("evil.example/x"), None);
}

#[test]
fn refresh_request_carries_credentials() {
    let req = refresh_request(&token("x"), &registration("ap-south-1")).unwrap();
    assert_eq!(req.endpoint, "https://oidc.ap-south-1.amazonaws.com/token");
    assert_eq!(req.client_id, "cid");
    assert_eq!(req.client_secret, "SECRET-REDACTED");
    assert_eq!(req.refresh_token, "rt-old");
    assert!(refresh_request(&token("x"), &registration("AP-SOUTH-1")).is_none());
}

#[test]
fn refreshed_token_keeps_fields() {
    let old = token("old");
    let resp = RefreshResponse {
        access_token: "at-new".to_string(),
        refresh_token: None,
        expires_in: 3600,
    };
    let t = refreshed_token(&old, resp, "new-exp".to_string());
    assert_eq!(t.access_token, "at-new");
    assert_eq!(t.refresh_token, "rt-old");
    assert_eq!(t.expires_at, "new-exp");
    assert_eq!(t.region, old.region);
    assert_eq!(t.start_url, old.start_url);
    assert_eq!(t.oauth_flow, old.oauth_flow);
    assert_eq!(t.scopes, old.scopes);

    let resp = RefreshResponse {
        access_token: "at-new".to_string(),
        refresh_token: Some("rt-new".to_string()),
        expires_in: 3600,
    };
    assert_eq!(refreshed_token(&old, resp, "e".to_string()).refresh_token, "rt-new");
}

#[test]
fn profile_arn_shapes() {
    assert_eq!(
        profile_arn_from_raw("\"arn:aws:codewhisperer:us-east-1:1:profile/A\"".to_string()),
        "arn:aws:codewhisperer:us-east-1:1:profile/A"
    );
    assert_eq!(
        profile_arn_from_raw("{\"arn\":\"arn:x\",\"profileName\":\"p\"}".to_string()),
        "arn:x"
    );
    // An object without a string `arn`, other JSON, and plain text stay raw.
    assert_eq!(profile_arn_from_raw("{\"name\":\"p\"}".to_string()), "{\"name\":\"p\"}");
    assert_eq!(profile_arn_from_raw("{\"arn\":5}".to_string()), "{\"arn\":5}");
    assert_eq!(profile_arn_from_raw("[1]".to_string()), "[1]");
    assert_eq!(profile_arn_from_raw("arn:plain".to_string()), "arn:plain");
}

#[test]
fn profile_arn_choice() {
    let raw = "r".to_string();
    assert_eq!(choose_profile_arn(raw.clone(), Some("s".into()), Some("a".into())), "s");
    assert_eq!(choose_profile_arn(raw.clone(), None, Some("a".into())), "a");
    assert_eq!(choose_profile_arn(raw, None, None), "r");
}

#[test]
fn auth_response_expiry() {
    let auth = KiroAuthResult {
        access_token: "at".to_string(),
        profile_arn: Some("arn".to_string()),
        expires_at: "2026-01-01T19:04:05Z".to_string(),
    };
    let r = auth_response(auth, 5);
    assert_eq!(r.access_token, "at");
    assert_eq!(r.expires_at, 1_767_294_245_000);
    assert_eq!(r.profile_arn.as_deref(), Some("arn"));

    let auth = KiroAuthResult {
        access_token: "at".to_string(),
        profile_arn: None,
        expires_at: "later".to_string(),
    };
    let r = auth_response(auth, 1_000);
    assert_eq!(r.expires_at, 1_801_000);
    assert_eq!(r.profile_arn, None);
}

#[test]
fn parse_choice_prefers_direct_reading() {
    let d = ParsedDateTime { secs: 1, nanos: 2, offset_secs: 3 };
    assert_eq!(choose_parse(Some((1, 2, 3)), Some((9, 9, 9))), Some(d));
    assert_eq!(
        choose_parse(None, Some((9, 8, 7))),
        Some(ParsedDateTime { secs: 9, nanos: 8, offset_secs: 7 })
    );
    assert_eq!(choose_parse(None, None), None);
}

#[test]
fn expiry_reached_and_millis() {
    let exp = ParsedDateTime { secs: 10, nanos: 5, offset_secs: 0 };
    assert!(!expired_by(Some(exp), UtcInstant { secs: 10, nanos: 4 }));
    assert!(expired_by(Some(exp), UtcInstant { secs: 10, nanos: 5 }));
    assert!(expired_by(None, UtcInstant { secs: 0, nanos: 0 }));
    assert_eq!(millis_u64(ParsedDateTime { secs: 2, nanos: 1_999_999, offset_secs: 0 }), 2_001);
    // A leap second counts its extra nanoseconds as milliseconds, as chrono does.
    assert_eq!(millis_u64(ParsedDateTime { secs: 59, nanos: 1_500_000_000, offset_secs: 0 }), 60_500);
    assert_eq!(millis_u64(ParsedDateTime { secs: -1, nanos: 0, offset_secs: 0 }), u64::MAX - 999);
}

#[test]
fn clock_reading_to_instant() {
    let (secs, nanos) = time_since_epoch().expect("the clock reads after the epoch");
    assert!(secs > 1_600_000_000);
    assert!(nanos < 1_000_000_000);
    assert_eq!(instant_from_reading(Some((5, 7))), Some(UtcInstant { secs: 5, nanos: 7 }));
    assert_eq!(instant_from_reading(Some((u64::MAX, 0))), None);
    assert_eq!(
        instant_from_reading(Some((i64::MAX as u64, 1))),
        Some(UtcInstant { secs: i64::MAX, nanos: 1 })
    );
    assert_eq!(instant_from_reading(None), None);
}

#[test]
fn auth_response_ignores_clock_when_expiry_parses() {
    let auth = KiroAuthResult {
        access_token: "at".to_string(),
        profile_arn: None,
        expires_at: "2026-01-01T19:04:05Z".to_string(),
    };
    // A clock value too close to u64::MAX is fine: it is not used.
    assert_eq!(auth_response(auth.clone(), u64::MAX).expires_at, 1_767_294_245_000);
    assert_eq!(try_auth_response(auth, u64::MAX).unwrap().expires_at, 1_767_294_245_000);

    let unparsed = KiroAuthResult {
        access_token: "at".to_string(),
        profile_arn: Some("arn".to_string()),
        expires_at: "later".to_string(),
    };
    assert!(try_auth_response(unparsed.clone(), u64::MAX - 1_799_999).is_none());
    let r = try_auth_response(unparsed, u64::MAX - 1_800_000).unwrap();
    assert_eq!(r.expires_at, u64::MAX);
    assert_eq!(r.access_token, "at");
    assert_eq!(r.profile_arn.as_deref(), Some("arn"));
}
