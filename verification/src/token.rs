//! The Kiro CLI token records, where their database lives, the OIDC refresh
//! request and the token that a refresh produces, the profile ARN, and the
//! fields of the `_kiro/auth/getAccessToken` reply.

use vstd::prelude::*;
use crate::region::{region_ok, valid_region};
use crate::rfc3339::{parse_rfc3339, parse_rfc3339_spec, unix_millis};

verus! {

/// The cached token record kiro-cli keeps under `kirocli:odic:token`.
#[derive(Clone, Debug)]
pub struct TokenData {
    pub access_token: String,
    pub expires_at: String,
    pub refresh_token: String,
    pub region: String,
    pub start_url: String,
    pub oauth_flow: String,
    pub scopes: Vec<String>,
}

/// The device registration kiro-cli keeps under
/// `kirocli:odic:device-registration`.
#[derive(Clone, Debug)]
pub struct Registration {
    pub client_id: String,
    pub client_secret: String,
    pub region: String,
}

/// The body of a successful AWS SSO OIDC token reply.
#[derive(Clone, Debug)]
pub struct RefreshResponse {
    pub access_token: String,
    pub refresh_token: Option<String>,
    pub expires_in: u64,
}

/// Result of a successful token fetch, including profile ARN.
#[derive(Clone, Debug)]
pub struct KiroAuthResult {
    pub access_token: String,
    pub profile_arn: Option<String>,
    pub expires_at: String,
}

/// The contents of a token record.
pub struct TokenModel {
    pub access_token: Seq<char>,
    pub expires_at: Seq<char>,
    pub refresh_token: Seq<char>,
    pub region: Seq<char>,
    pub start_url: Seq<char>,
    pub oauth_flow: Seq<char>,
    pub scopes: Seq<Seq<char>>,
}

/// The characters of each string of a list.
pub open spec fn strings_view(v: Seq<String>) -> Seq<Seq<char>> {
    v.map_values(|s: String| s@)
}

/// The characters of an optional owned string.
pub open spec fn opt_string_view(s: Option<String>) -> Option<Seq<char>> {
    match s {
        Some(t) => Some(t@),
        None => None,
    }
}

impl View for TokenData {
    type V = TokenModel;

    open spec fn view(&self) -> TokenModel {
        TokenModel {
            access_token: self.access_token@,
            expires_at: self.expires_at@,
            refresh_token: self.refresh_token@,
            region: self.region@,
            start_url: self.start_url@,
            oauth_flow: self.oauth_flow@,
            scopes: strings_view(self.scopes@),
        }
    }
}

impl TokenData {
    /// A copy of the record.
    pub fn duplicate(&self) -> (r: TokenData)
        ensures
            r@ == self@,
    {
        TokenData {
            access_token: self.access_token.clone(),
            expires_at: self.expires_at.clone(),
            refresh_token: self.refresh_token.clone(),
            region: self.region.clone(),
            start_url: self.start_url.clone(),
            oauth_flow: self.oauth_flow.clone(),
            scopes: clone_strings(&self.scopes),
        }
    }
}

/// The contents of a device registration.
pub struct RegistrationModel {
    pub client_id: Seq<char>,
    pub client_secret: Seq<char>,
    pub region: Seq<char>,
}

impl View for Registration {
    type V = RegistrationModel;

    open spec fn view(&self) -> RegistrationModel {
        RegistrationModel {
            client_id: self.client_id@,
            client_secret: self.client_secret@,
            region: self.region@,
        }
    }
}

/// The contents of an OIDC token reply.
pub struct RefreshResponseModel {
    pub access_token: Seq<char>,
    pub refresh_token: Option<Seq<char>>,
    pub expires_in: u64,
}

impl View for RefreshResponse {
    type V = RefreshResponseModel;

    open spec fn view(&self) -> RefreshResponseModel {
        RefreshResponseModel {
            access_token: self.access_token@,
            refresh_token: opt_string_view(self.refresh_token),
            expires_in: self.expires_in,
        }
    }
}

/// The contents of a token fetch result.
pub struct AuthResultModel {
    pub access_token: Seq<char>,
    pub profile_arn: Option<Seq<char>>,
    pub expires_at: Seq<char>,
}

impl View for KiroAuthResult {
    type V = AuthResultModel;

    open spec fn view(&self) -> AuthResultModel {
        AuthResultModel {
            access_token: self.access_token@,
            profile_arn: opt_string_view(self.profile_arn),
            expires_at: self.expires_at@,
        }
    }
}

/// Token lifetime, in seconds, assumed when an OIDC reply gives none.
pub fn default_expires_in() -> (r: u64)
    ensures
        r == 3600,
{
    3600
}

/// `s` without the `/` characters at its end.
pub open spec fn trim_trailing_slashes(s: Seq<char>) -> Seq<char>
    decreases s.len(),
{
    if s.len() > 0 && s.last() == '/' {
        trim_trailing_slashes(s.drop_last())
    } else {
        s
    }
}

fn trim_end_slashes(s: &str) -> (r: String)
    ensures
        r@ == trim_trailing_slashes(s@),
{
    let n = s.unicode_len();
    let mut end: usize = n;
    assert(s@.subrange(0, n as int) =~= s@);
    while end > 0 && s.get_char(end - 1) == '/'
        invariant
            n == s@.len(),
            end <= n,
            trim_trailing_slashes(s@) == trim_trailing_slashes(s@.subrange(0, end as int)),
        decreases end,
    {
        assert(s@.subrange(0, end as int).drop_last() =~= s@.subrange(0, end - 1));
        end = end - 1;
    }
    s.substring_char(0, end).to_owned()
}

/// Where the kiro-cli database lives: `<dir>/data.sqlite3` when the data
/// directory override is set and non-empty (its trailing `/`s dropped), else
/// `<home>/.local/share/kiro-cli/data.sqlite3`, else nowhere.
pub open spec fn db_path_spec(data_dir: Option<Seq<char>>, home: Option<Seq<char>>) -> Option<Seq<char>> {
    match data_dir {
        Some(d) if d.len() > 0 => Some(trim_trailing_slashes(d) + "/"@ + "data.sqlite3"@),
        _ => match home {
            Some(h) => Some(h + "/"@ + ".local/share/kiro-cli/data.sqlite3"@),
            None => None,
        },
    }
}

/// The characters of an optional string.
pub open spec fn opt_str_view(s: Option<&str>) -> Option<Seq<char>> {
    match s {
        Some(t) => Some(t@),
        None => None,
    }
}

/// A data-directory override that does not end in `/` is used as it is: the
/// database is `<dir>/data.sqlite3`.
pub proof fn law_data_dir_is_joined_with_a_slash(d: Seq<char>, home: Option<Seq<char>>)
    requires
        d.len() > 0,
        d.last() != '/',
    ensures
        db_path_spec(Some(d), home) == Some(d + "/"@ + "data.sqlite3"@),
{
}

/// Trailing `/`s on the data-directory override do not change the database
/// path: `dir` and `dir/` name the same database.
pub proof fn law_data_dir_trailing_slash_is_irrelevant(d: Seq<char>, home: Option<Seq<char>>)
    requires
        d.len() > 0,
    ensures
        db_path_spec(Some(d), home) == db_path_spec(Some(d + "/"@), home),
{
    reveal_strlit("/");
    let ds = d + "/"@;
    assert(ds.len() > 0 && ds.last() == '/');
    assert(ds.drop_last() =~= d);
}

/// `trim_trailing_slashes(s)` is the longest prefix of `s` that does not end
/// in `/` such that only `/`s follow it.
proof fn lemma_trim_trailing_slashes_shape(s: Seq<char>)
    ensures
        trim_trailing_slashes(s).len() <= s.len(),
        trim_trailing_slashes(s) =~= s.subrange(0, trim_trailing_slashes(s).len() as int),
        forall|i: int| trim_trailing_slashes(s).len() <= i < s.len() ==> s[i] == '/',
        trim_trailing_slashes(s).len() == 0 || trim_trailing_slashes(s).last() != '/',
    decreases s.len(),
{
    if s.len() > 0 && s.last() == '/' {
        let p = s.drop_last();
        lemma_trim_trailing_slashes_shape(p);
        let t = trim_trailing_slashes(p);
        assert(p.subrange(0, t.len() as int) =~= s.subrange(0, t.len() as int));
        assert forall|i: int| t.len() <= i < s.len() implies s[i] == '/' by {
            if i < p.len() {
                assert(s[i] == p[i]);
            }
        }
    }
}

/// With a non-empty data-directory override, the database is `<t>/data.sqlite3`
/// where `t` is the override without its trailing `/`s: a prefix of it that
/// does not end in `/`, followed in the override by nothing but `/`s.
pub proof fn law_data_dir_database_path(d: Seq<char>, home: Option<Seq<char>>)
    requires
        d.len() > 0,
    ensures
        ({
            let t = trim_trailing_slashes(d);
            &&& db_path_spec(Some(d), home) == Some(t + "/data.sqlite3"@)
            &&& t =~= d.subrange(0, t.len() as int)
            &&& (forall|i: int| t.len() <= i < d.len() ==> d[i] == '/')
            &&& (t.len() == 0 || t.last() != '/')
        }),
{
    lemma_trim_trailing_slashes_shape(d);
    reveal_strlit("/");
    reveal_strlit("data.sqlite3");
    reveal_strlit("/data.sqlite3");
    assert("/"@ + "data.sqlite3"@ =~= "/data.sqlite3"@);
    let t = trim_trailing_slashes(d);
    assert(t + "/"@ + "data.sqlite3"@ =~= t + "/data.sqlite3"@);
}

/// Without a (non-empty) data-directory override the database is
/// `<home>/.local/share/kiro-cli/data.sqlite3`, and there is none without HOME.
pub proof fn law_home_database_path(data_dir: Option<Seq<char>>, home: Option<Seq<char>>)
    requires
        data_dir matches Some(d) ==> d.len() == 0,
    ensures
        home matches Some(h) ==> db_path_spec(data_dir, home) == Some(
            h + "/.local/share/kiro-cli/data.sqlite3"@,
        ),
        home is None ==> db_path_spec(data_dir, home) is None,
{
    reveal_strlit("/");
    reveal_strlit(".local/share/kiro-cli/data.sqlite3");
    reveal_strlit("/.local/share/kiro-cli/data.sqlite3");
    assert("/"@ + ".local/share/kiro-cli/data.sqlite3"@ =~= "/.local/share/kiro-cli/data.sqlite3"@);
    if let Some(h) = home {
        assert(h + "/"@ + ".local/share/kiro-cli/data.sqlite3"@ =~= h
            + "/.local/share/kiro-cli/data.sqlite3"@);
    }
}

/// With a non-empty override, HOME plays no part in the database path.
pub proof fn law_data_dir_overrides_home(d: Seq<char>, h1: Option<Seq<char>>, h2: Option<Seq<char>>)
    requires
        d.len() > 0,
    ensures
        db_path_spec(Some(d), h1) == db_path_spec(Some(d), h2),
        db_path_spec(Some(d), h1) is Some,
{
}

/// Resolve the kiro-cli sqlite database path from the values of
/// `KIRO_CLI_DATA_DIR` and `HOME`: the data-directory override (expected to
/// hold `data.sqlite3` directly) takes precedence over the HOME-relative
/// default.
pub fn db_path(data_dir: Option<&str>, home: Option<&str>) -> (r: Option<String>)
    ensures
        match db_path_spec(opt_str_view(data_dir), opt_str_view(home)) {
            Some(p) => r matches Some(out) && out@ == p,
            None => r is None,
        },
{
    if let Some(dir) = data_dir {
        if dir.unicode_len() > 0 {
            let mut path = trim_end_slashes(dir);
            path.append("/");
            path.append("data.sqlite3");
            return Some(path);
        }
    }
    match home {
        Some(h) => {
            let mut path = h.to_owned();
            path.append("/");
            path.append(".local/share/kiro-cli/data.sqlite3");
            Some(path)
        },
        None => None,
    }
}

/// The region the OIDC refresh goes to: the registration's region when it is
/// valid, `us-east-1` when it is empty, and none (refuse to refresh) when it
/// is set but malformed.
pub open spec fn oidc_region(region: Seq<char>) -> Option<Seq<char>> {
    if region_ok(region) {
        Some(region)
    } else if region.len() == 0 {
        Some("us-east-1"@)
    } else {
        None
    }
}

/// The AWS SSO OIDC token endpoint of a region.
pub open spec fn oidc_endpoint_url(region: Seq<char>) -> Seq<char> {
    "https://oidc."@ + region + ".amazonaws.com/token"@
}

/// The region an OIDC refresh goes to is always well formed (the default
/// `us-east-1` included).
pub proof fn law_oidc_region_is_well_formed(region: Seq<char>)
    ensures
        oidc_region(region) matches Some(r) ==> region_ok(r),
{
    reveal_strlit("us-east-1");
    if !region_ok(region) && region.len() == 0 {
        let r = "us-east-1"@;
        assert(r.len() == 9);
        assert forall|i: int| 0 <= i < r.len() implies #[trigger] crate::region::is_region_char(r[i]) by {
            assert(r[i] == 'u' || r[i] == 's' || r[i] == '-' || r[i] == 'e' || r[i] == 'a' || r[i] == 't'
                || r[i] == '1');
        }
    }
}

/// The OIDC token endpoint for a registration's region, or `None` when the
/// region is malformed and the refresh must be refused.
pub fn oidc_token_endpoint(region: &str) -> (r: Option<String>)
    ensures
        match oidc_region(region@) {
            Some(reg) => r matches Some(url) && url@ == oidc_endpoint_url(reg),
            None => r is None,
        },
{
    let mut url = "https://oidc.".to_owned();
    if valid_region(region) {
        url.append(region);
    } else if region.unicode_len() == 0 {
        url.append("us-east-1");
    } else {
        return None;
    }
    url.append(".amazonaws.com/token");
    Some(url)
}

/// An OIDC `refresh_token` grant: where it goes and what it carries.
#[derive(Clone, Debug)]
pub struct RefreshRequest {
    pub endpoint: String,
    pub client_id: String,
    pub client_secret: String,
    pub refresh_token: String,
}

/// The contents of a refresh request.
pub struct RefreshRequestModel {
    pub endpoint: Seq<char>,
    pub client_id: Seq<char>,
    pub client_secret: Seq<char>,
    pub refresh_token: Seq<char>,
}

impl View for RefreshRequest {
    type V = RefreshRequestModel;

    open spec fn view(&self) -> RefreshRequestModel {
        RefreshRequestModel {
            endpoint: self.endpoint@,
            client_id: self.client_id@,
            client_secret: self.client_secret@,
            refresh_token: self.refresh_token@,
        }
    }
}

/// The refresh request for a token and registration: the OIDC endpoint of the
/// registration's region with the registration's client credentials and the
/// token's refresh token; none when the region is malformed.
pub open spec fn refresh_request_spec(token: TokenModel, reg: RegistrationModel) -> Option<RefreshRequestModel> {
    match oidc_region(reg.region) {
        Some(region) => Some(RefreshRequestModel {
            endpoint: oidc_endpoint_url(region),
            client_id: reg.client_id,
            client_secret: reg.client_secret,
            refresh_token: token.refresh_token,
        }),
        None => None,
    }
}

/// The refresh request for a cached token and its device registration, or
/// `None` when the registration's region is malformed.
pub fn refresh_request(token: &TokenData, reg: &Registration) -> (r: Option<RefreshRequest>)
    ensures
        match refresh_request_spec(token@, reg@) {
            Some(m) => r matches Some(req) && req@ == m,
            None => r is None,
        },
{
    match oidc_token_endpoint(reg.region.as_str()) {
        Some(endpoint) => Some(RefreshRequest {
            endpoint,
            client_id: reg.client_id.clone(),
            client_secret: reg.client_secret.clone(),
            refresh_token: token.refresh_token.clone(),
        }),
        None => None,
    }
}

fn clone_strings(v: &Vec<String>) -> (r: Vec<String>)
    ensures
        r@ == v@,
{
    let mut out: Vec<String> = Vec::new();
    let mut i: usize = 0;
    assert(out@ =~= v@.subrange(0, 0));
    while i < v.len()
        invariant
            i <= v.len(),
            out@ == v@.subrange(0, i as int),
        decreases v.len() - i,
    {
        out.push(v[i].clone());
        i = i + 1;
        assert(out@ =~= v@.subrange(0, i as int));
    }
    assert(v@.subrange(0, v.len() as int) =~= v@);
    out
}

/// The token record after a successful refresh: the new access token and
/// expiry, the new refresh token when the reply has one (else the old one),
/// and every other field kept.
pub open spec fn refreshed_token_spec(token: TokenModel, resp: RefreshResponseModel, expires_at: Seq<char>) -> TokenModel {
    TokenModel {
        access_token: resp.access_token,
        expires_at,
        refresh_token: match resp.refresh_token {
            Some(t) => t,
            None => token.refresh_token,
        },
        ..token
    }
}

/// The token record after a successful refresh that leaves it valid until
/// `expires_at`.
pub fn refreshed_token(token: &TokenData, resp: RefreshResponse, expires_at: String) -> (r: TokenData)
    ensures
        r@ == refreshed_token_spec(token@, resp@, expires_at@),
{
    let refresh = match resp.refresh_token {
        Some(t) => t,
        None => token.refresh_token.clone(),
    };
    TokenData {
        access_token: resp.access_token,
        refresh_token: refresh,
        expires_at,
        region: token.region.clone(),
        start_url: token.start_url.clone(),
        oauth_flow: token.oauth_flow.clone(),
        scopes: clone_strings(&token.scopes),
    }
}

/// What `serde_json::from_str::<String>` gives for a text: the decoded
/// string when the text is a JSON string, else `None`.
pub uninterp spec fn json_string_value(text: Seq<char>) -> Option<Seq<char>>;

/// What a JSON object text holds under `key` when that member is a string:
/// the text parsed by `serde_json::from_str` as a `serde_json::Map`, then
/// looked up.
pub uninterp spec fn json_object_string_member(text: Seq<char>, key: Seq<char>) -> Option<Seq<char>>;

/// Calls `serde_json::from_str::<String>`. The contract claims only that the
/// outcome is determined by the text (`json_string_value`).
#[verifier::external_body]
fn json_as_string(text: &str) -> (r: Option<String>)
    ensures
        match json_string_value(text@) {
            Some(v) => r matches Some(s) && s@ == v,
            None => r is None,
        },
{
    serde_json::from_str::<String>(text).ok()
}

/// Calls `serde_json::from_str::<serde_json::Map<String, serde_json::Value>>`
/// and reads the member `key` when it is a `Value::String`. The contract
/// claims only that the outcome is determined by the text and the key
/// (`json_object_string_member`).
#[verifier::external_body]
fn json_member_as_string(text: &str, key: &str) -> (r: Option<String>)
    ensures
        match json_object_string_member(text@, key@) {
            Some(v) => r matches Some(s) && s@ == v,
            None => r is None,
        },
{
    match serde_json::from_str::<serde_json::Map<String, serde_json::Value>>(text) {
        Ok(obj) => match obj.get(key) {
            Some(serde_json::Value::String(s)) => Some(s.clone()),
            _ => None,
        },
        Err(_) => None,
    }
}

/// The profile ARN from the stored profile value, given what it decodes to:
/// the decoded string when the value is a JSON string, else its `arn` member
/// when it is a JSON object with a string `arn`, else the raw value.
pub fn choose_profile_arn(raw: String, as_string: Option<String>, arn_member: Option<String>) -> (r: String)
    ensures
        r == match as_string {
            Some(s) => s,
            None => match arn_member {
                Some(a) => a,
                None => raw,
            },
        },
{
    match as_string {
        Some(s) => s,
        None => match arn_member {
            Some(a) => a,
            None => raw,
        },
    }
}

/// The profile ARN a stored `api.codewhisperer.profile` value names.
pub open spec fn profile_arn_spec(raw: Seq<char>) -> Seq<char> {
    match json_string_value(raw) {
        Some(s) => s,
        None => match json_object_string_member(raw, "arn"@) {
            Some(a) => a,
            None => raw,
        },
    }
}

/// The profile ARN named by a stored profile value, which may be a JSON
/// string, a JSON object `{"arn": "...", ...}`, or a plain ARN.
pub fn profile_arn_from_raw(raw: String) -> (r: String)
    ensures
        r@ == profile_arn_spec(raw@),
{
    let as_string = json_as_string(raw.as_str());
    let arn_member = if as_string.is_some() {
        None
    } else {
        json_member_as_string(raw.as_str(), "arn")
    };
    choose_profile_arn(raw, as_string, arn_member)
}

/// How long, in milliseconds, a token whose expiry cannot be read is
/// reported to live.
pub const EXPIRY_FALLBACK_MS: u64 = 1_800_000;

/// The fields of the `_kiro/auth/getAccessToken` reply.
#[derive(Clone, Debug)]
pub struct AuthResponse {
    pub access_token: String,
    pub expires_at: u64,
    pub profile_arn: Option<String>,
}

/// The expiry a reply reports: the token's expiry in Unix milliseconds, or
/// `now_ms` plus 30 minutes when the expiry cannot be parsed.
pub open spec fn reply_expiry(expires_at: Seq<char>, now_ms: u64) -> int {
    match parse_rfc3339_spec(expires_at) {
        Some(dt) => (unix_millis(dt) as u64) as int,
        None => now_ms + EXPIRY_FALLBACK_MS,
    }
}

/// When the expiry parses, the reply's expiry is its millisecond count
/// (seconds times 1000 plus whole milliseconds, as `u64`), whatever the
/// clock reads and whatever UTC offset the expiry was written with.
pub proof fn law_reply_expiry_is_the_instant(expires_at: Seq<char>, now_ms: u64, other_now: u64)
    requires
        parse_rfc3339_spec(expires_at) is Some,
    ensures
        ({
            let dt = parse_rfc3339_spec(expires_at)->0;
            reply_expiry(expires_at, now_ms) == ((dt.secs * 1000 + dt.nanos / 1_000_000) as u64) as int
        }),
        reply_expiry(expires_at, now_ms) == reply_expiry(expires_at, other_now),
{
}

/// Two expiry texts that denote the same instant give the same reply expiry,
/// whatever offsets they are written with.
pub proof fn law_reply_expiry_ignores_offset(a: Seq<char>, b: Seq<char>, now_ms: u64)
    requires
        parse_rfc3339_spec(a) is Some,
        parse_rfc3339_spec(b) is Some,
        parse_rfc3339_spec(a)->0.secs == parse_rfc3339_spec(b)->0.secs,
        parse_rfc3339_spec(a)->0.nanos == parse_rfc3339_spec(b)->0.nanos,
    ensures
        reply_expiry(a, now_ms) == reply_expiry(b, now_ms),
{
}

/// When the expiry cannot be parsed, the reply reports 30 minutes after the
/// clock reading.
pub proof fn law_reply_expiry_falls_back_to_half_an_hour(expires_at: Seq<char>, now_ms: u64)
    requires
        parse_rfc3339_spec(expires_at) is None,
    ensures
        reply_expiry(expires_at, now_ms) == now_ms + 1_800_000,
{
}

/// The reply fields for a token: its access token and profile ARN, and its
/// expiry in Unix milliseconds, or `now_ms` plus 30 minutes when the expiry
/// cannot be parsed (the current time is only used then, and must leave room
/// for the 30 minutes).
pub fn auth_response(auth: KiroAuthResult, now_ms: u64) -> (r: AuthResponse)
    requires
        parse_rfc3339_spec(auth.expires_at@) is None ==> now_ms <= u64::MAX - EXPIRY_FALLBACK_MS,
    ensures
        r.access_token == auth.access_token,
        r.profile_arn == auth.profile_arn,
        r.expires_at == reply_expiry(auth.expires_at@, now_ms),
{
    let expires_at = match crate::rfc3339::expires_at_ms(auth.expires_at.as_str()) {
        Some(ms) => ms,
        None => now_ms + EXPIRY_FALLBACK_MS,
    };
    AuthResponse { access_token: auth.access_token, expires_at, profile_arn: auth.profile_arn }
}

/// The reply fields for a token, or `None` exactly when its expiry cannot be
/// parsed and `now_ms` plus 30 minutes does not fit a `u64` (where the sum
/// overflows).
pub fn try_auth_response(auth: KiroAuthResult, now_ms: u64) -> (r: Option<AuthResponse>)
    ensures
        r is None <==> (parse_rfc3339_spec(auth.expires_at@) is None && now_ms > u64::MAX
            - EXPIRY_FALLBACK_MS),
        r matches Some(reply) ==> {
            &&& reply.access_token == auth.access_token
            &&& reply.profile_arn == auth.profile_arn
            &&& reply.expires_at == reply_expiry(auth.expires_at@, now_ms)
        },
{
    if crate::rfc3339::expires_at_ms(auth.expires_at.as_str()).is_none() && now_ms > u64::MAX
        - EXPIRY_FALLBACK_MS {
        None
    } else {
        Some(auth_response(auth, now_ms))
    }
}

} // verus!
