//! RFC 3339 timestamps: parsing (with a fallback that drops over-long
//! fractional seconds but keeps the timezone designator), expiry checks and
//! the expiry text written after a token refresh.

use vstd::prelude::*;

verus! {

/// A character that starts an RFC 3339 timezone designator (`Z`, `z`, `+`, `-`).
pub open spec fn is_tz_designator(c: char) -> bool {
    c == 'Z' || c == 'z' || c == '+' || c == '-'
}

/// `dot` is the first `.` of `s`, and `tz` is the first timezone designator
/// character after it.
pub open spec fn fraction_bounds(s: Seq<char>, dot: int, tz: int) -> bool {
    &&& 0 <= dot < tz < s.len()
    &&& s[dot] == '.'
    &&& forall|j: int| 0 <= j < dot ==> s[j] != '.'
    &&& is_tz_designator(s[tz])
    &&& forall|j: int| dot < j < tz ==> !is_tz_designator(#[trigger] s[j])
}

/// `s` with everything from its first `.` up to (not including) the timezone
/// designator that follows removed; `None` when there is no `.` or no
/// designator after it.
pub open spec fn strip_fraction(s: Seq<char>) -> Option<Seq<char>> {
    if exists|d: int, t: int| fraction_bounds(s, d, t) {
        let (d, t) = choose|d: int, t: int| fraction_bounds(s, d, t);
        Some(s.subrange(0, d) + s.subrange(t, s.len() as int))
    } else {
        None
    }
}

/// The bounds of `fraction_bounds` are unique.
pub proof fn lemma_fraction_bounds_unique(s: Seq<char>, d1: int, t1: int, d2: int, t2: int)
    requires
        fraction_bounds(s, d1, t1),
        fraction_bounds(s, d2, t2),
    ensures
        d1 == d2,
        t1 == t2,
{
    if d1 < d2 {
        assert(s[d1] != '.');
    } else if d2 < d1 {
        assert(s[d2] != '.');
    }
    if t1 < t2 {
        assert(!is_tz_designator(s[t1]));
    } else if t2 < t1 {
        assert(!is_tz_designator(s[t2]));
    }
}

/// Strip sub-second precision from an RFC 3339 timestamp while preserving the
/// original timezone designator (`Z`, `z`, or `±HH:MM`): the text before the
/// first `.` is joined to the text from the first designator after it.
pub fn strip_fractional_seconds(s: &str) -> (r: Option<String>)
    ensures
        match r {
            Some(out) => strip_fraction(s@) == Some(out@),
            None => strip_fraction(s@) is None,
        },
{
    let n = s.unicode_len();
    let mut dot: usize = 0;
    while dot < n && s.get_char(dot) != '.'
        invariant
            n == s@.len(),
            dot <= n,
            forall|j: int| 0 <= j < dot ==> s@[j] != '.',
        decreases n - dot,
    {
        dot = dot + 1;
    }
    if dot == n {
        proof {
            assert forall|d: int, t: int| !fraction_bounds(s@, d, t) by {
                if fraction_bounds(s@, d, t) {
                    assert(s@[d] == '.');
                }
            }
        }
        return None;
    }
    let mut tz: usize = dot + 1;
    while tz < n && !is_designator(s.get_char(tz))
        invariant
            n == s@.len(),
            dot < tz <= n,
            forall|j: int| dot < j < tz ==> !is_tz_designator(#[trigger] s@[j]),
        decreases n - tz,
    {
        tz = tz + 1;
    }
    if tz == n {
        proof {
            assert forall|d: int, t: int| !fraction_bounds(s@, d, t) by {
                if fraction_bounds(s@, d, t) {
                    if d < dot {
                        assert(s@[d] != '.');
                    } else if dot < d {
                        assert(s@[dot as int] != '.');
                    }
                    assert(!is_tz_designator(s@[t]));
                }
            }
        }
        return None;
    }
    let mut out = s.substring_char(0, dot).to_owned();
    out.append(s.substring_char(tz, n));
    proof {
        assert(fraction_bounds(s@, dot as int, tz as int));
        let (d, t) = choose|d: int, t: int| fraction_bounds(s@, d, t);
        lemma_fraction_bounds_unique(s@, d, t, dot as int, tz as int);
    }
    Some(out)
}

/// Stripping the fraction keeps the timezone: the stripped text is the text
/// before the first `.` followed by everything from the timezone designator
/// on, so the designator and offset come through unchanged and nothing of the
/// fraction remains.
pub proof fn law_strip_keeps_timezone(s: Seq<char>)
    requires
        strip_fraction(s) is Some,
    ensures
        ({
            let out = strip_fraction(s)->0;
            exists|d: int, t: int| {
                &&& fraction_bounds(s, d, t)
                &&& out.subrange(0, d) == s.subrange(0, d)
                &&& out.subrange(d, out.len() as int) == s.subrange(t, s.len() as int)
                &&& is_tz_designator(out[d])
                &&& forall|j: int| 0 <= j < d ==> out[j] != '.'
            }
        }),
{
    let (d, t) = choose|d: int, t: int| fraction_bounds(s, d, t);
    let out = strip_fraction(s)->0;
    assert(out.subrange(0, d) =~= s.subrange(0, d));
    assert(out.subrange(d, out.len() as int) =~= s.subrange(t, s.len() as int));
    assert(out[d] == s[t]);
}

fn is_designator(c: char) -> (r: bool)
    ensures
        r == is_tz_designator(c),
{
    c == 'Z' || c == 'z' || c == '+' || c == '-'
}

/// The fields `chrono::DateTime::parse_from_rfc3339` yields for a text, as
/// (Unix seconds, nanoseconds within the second, UTC offset in seconds), or
/// `None` when chrono rejects the text.
pub uninterp spec fn rfc3339_fields(text: Seq<char>) -> Option<(i64, u32, i32)>;

/// Calls `chrono::DateTime::parse_from_rfc3339` and reads back from the parsed
/// value `timestamp()`, `timestamp_subsec_nanos()` and
/// `offset().local_minus_utc()`. The contract claims only that the outcome is
/// determined by the text (the name `rfc3339_fields`); which texts chrono
/// accepts is not stated.
#[verifier::external_body]
fn chrono_parse_rfc3339(text: &str) -> (r: Option<(i64, u32, i32)>)
    ensures
        r == rfc3339_fields(text@),
{
    match chrono::DateTime::parse_from_rfc3339(text) {
        Ok(dt) => Some((dt.timestamp(), dt.timestamp_subsec_nanos(), dt.offset().local_minus_utc())),
        Err(_) => None,
    }
}

/// A parsed RFC 3339 date-time: the instant (Unix seconds and the nanoseconds
/// within that second; a leap second carries 1e9 or more nanoseconds) and the
/// UTC offset, in seconds, that the text gave.
#[derive(Clone, Copy, Debug, PartialEq, Eq, Structural)]
pub struct ParsedDateTime {
    pub secs: i64,
    pub nanos: u32,
    pub offset_secs: i32,
}

/// An instant in UTC: Unix seconds and nanoseconds within the second.
#[derive(Clone, Copy, Debug, PartialEq, Eq, Structural)]
pub struct UtcInstant {
    pub secs: i64,
    pub nanos: u32,
}

/// The parsed date-time that chrono's fields describe.
pub open spec fn as_datetime(f: (i64, u32, i32)) -> ParsedDateTime {
    ParsedDateTime { secs: f.0, nanos: f.1, offset_secs: f.2 }
}

/// What `parse_rfc3339` gives: chrono's reading of the text itself when there
/// is one, and otherwise chrono's reading of the text with its fractional
/// seconds stripped.
pub open spec fn parse_rfc3339_spec(s: Seq<char>) -> Option<ParsedDateTime> {
    match rfc3339_fields(s) {
        Some(f) => Some(as_datetime(f)),
        None => match strip_fraction(s) {
            Some(c) => match rfc3339_fields(c) {
                Some(f) => Some(as_datetime(f)),
                None => None,
            },
            None => None,
        },
    }
}

/// The parse result from chrono's reading of the full text (`direct`) and,
/// for when that fails, its reading of the text with the fraction stripped
/// (`retried`): the direct reading when there is one, else the retried one.
pub fn choose_parse(direct: Option<(i64, u32, i32)>, retried: Option<(i64, u32, i32)>) -> (r: Option<ParsedDateTime>)
    ensures
        r == match direct {
            Some(f) => Some(as_datetime(f)),
            None => match retried {
                Some(f) => Some(as_datetime(f)),
                None => None,
            },
        },
{
    let chosen = match direct {
        Some(f) => Some(f),
        None => retried,
    };
    match chosen {
        Some(f) => Some(ParsedDateTime { secs: f.0, nanos: f.1, offset_secs: f.2 }),
        None => None,
    }
}

/// Parse an RFC 3339 timestamp, preferring the full text (including
/// fractional seconds) and falling back to the text with sub-second precision
/// stripped when the original cannot be parsed.
pub fn parse_rfc3339(expires_at: &str) -> (r: Option<ParsedDateTime>)
    ensures
        r == parse_rfc3339_spec(expires_at@),
{
    let direct = chrono_parse_rfc3339(expires_at);
    let retried = if direct.is_some() {
        None
    } else {
        match strip_fractional_seconds(expires_at) {
            Some(clean) => chrono_parse_rfc3339(clean.as_str()),
            None => None,
        }
    };
    choose_parse(direct, retried)
}

/// `now` is at or after the instant of `exp`.
pub open spec fn reached(exp: ParsedDateTime, now: UtcInstant) -> bool {
    !(now.secs < exp.secs || (now.secs == exp.secs && now.nanos < exp.nanos))
}

/// A token expiry is reached when `now` is at or after it; an expiry that
/// cannot be parsed counts as reached.
pub open spec fn expired_at(expires_at: Seq<char>, now: UtcInstant) -> bool {
    match parse_rfc3339_spec(expires_at) {
        Some(exp) => reached(exp, now),
        None => true,
    }
}

/// An expiry is reached exactly when `now` is the same instant or a later one:
/// a later second, or the same second with at least as many nanoseconds.
pub proof fn law_expiry_is_reached_from_its_instant_on(exp: ParsedDateTime, now: UtcInstant)
    ensures
        reached(exp, now) <==> (exp.secs < now.secs || (exp.secs == now.secs && exp.nanos <= now.nanos)),
{
}

/// Whether an expiry is reached does not depend on the UTC offset it was
/// written with: the same instant written with any offset is reached at the
/// same times.
pub proof fn law_expiry_ignores_offset(exp: ParsedDateTime, offset_secs: i32, now: UtcInstant)
    ensures
        reached(exp, now) == reached(ParsedDateTime { offset_secs, ..exp }, now),
{
}

/// Two expiry texts that denote the same instant (whatever offsets they are
/// written with) are expired at exactly the same times.
pub proof fn law_same_instant_same_expiry(a: Seq<char>, b: Seq<char>, now: UtcInstant)
    requires
        parse_rfc3339_spec(a) is Some,
        parse_rfc3339_spec(b) is Some,
        parse_rfc3339_spec(a)->0.secs == parse_rfc3339_spec(b)->0.secs,
        parse_rfc3339_spec(a)->0.nanos == parse_rfc3339_spec(b)->0.nanos,
    ensures
        expired_at(a, now) == expired_at(b, now),
{
}

/// A token whose expiry parses is expired at `now` exactly when `now` is the
/// expiry's instant or a later one, whatever UTC offset the expiry text uses;
/// one whose expiry does not parse is always expired.
pub proof fn law_expired_exactly_from_the_instant(expires_at: Seq<char>, now: UtcInstant)
    ensures
        parse_rfc3339_spec(expires_at) matches Some(exp) ==> (expired_at(expires_at, now) <==> (
        exp.secs < now.secs || (exp.secs == now.secs && exp.nanos <= now.nanos))),
        parse_rfc3339_spec(expires_at) is None ==> expired_at(expires_at, now),
{
}

/// Once reached, an expiry stays reached at every later instant.
pub proof fn law_expiry_stays_reached(exp: ParsedDateTime, now: UtcInstant, later: UtcInstant)
    requires
        reached(exp, now),
        now.secs < later.secs || (now.secs == later.secs && now.nanos <= later.nanos),
    ensures
        reached(exp, later),
{
}

/// Whether a parsed expiry is reached at `now`; a missing (unparseable)
/// expiry counts as reached.
pub fn expired_by(expiry: Option<ParsedDateTime>, now: UtcInstant) -> (r: bool)
    ensures
        r == match expiry {
            Some(exp) => reached(exp, now),
            None => true,
        },
{
    match expiry {
        Some(exp) => !(now.secs < exp.secs || (now.secs == exp.secs && now.nanos < exp.nanos)),
        None => true,
    }
}

/// Whether a token with this expiry is expired at `now`: `now >= expiry`, and
/// expired when the expiry cannot be parsed.
pub fn is_expired_at(expires_at: &str, now: UtcInstant) -> (r: bool)
    ensures
        r == expired_at(expires_at@, now),
{
    expired_by(parse_rfc3339(expires_at), now)
}

/// The UTC instant of a clock reading (seconds and nanoseconds since the
/// Unix epoch), or `None` when there is no reading or its seconds do not fit
/// an `i64`.
pub open spec fn instant_of(reading: Option<(u64, u32)>) -> Option<UtcInstant> {
    match reading {
        Some((secs, nanos)) => if secs <= i64::MAX {
            Some(UtcInstant { secs: secs as i64, nanos })
        } else {
            None
        },
        None => None,
    }
}

/// The UTC instant of a clock reading (see `instant_of`).
pub fn instant_from_reading(reading: Option<(u64, u32)>) -> (r: Option<UtcInstant>)
    ensures
        r == instant_of(reading),
{
    match reading {
        Some((secs, nanos)) => if secs <= i64::MAX as u64 {
            Some(UtcInstant { secs: secs as i64, nanos })
        } else {
            None
        },
        None => None,
    }
}

/// The current instant in UTC, read from the system clock: never before the
/// Unix epoch, with fewer than a second's worth of nanoseconds; `None` when
/// the clock reads before the epoch (or beyond what an `i64` of seconds holds).
pub fn current_instant() -> (r: Option<UtcInstant>)
    ensures
        r matches Some(now) ==> now.secs >= 0 && now.nanos < 1_000_000_000,
{
    instant_from_reading(crate::clock::time_since_epoch())
}

/// Whether a token with this expiry is expired at the instant the clock
/// reads (`None`: the clock cannot be read).
pub open spec fn expired_when(expires_at: Seq<char>, now: Option<UtcInstant>) -> bool {
    match now {
        Some(i) => expired_at(expires_at, i),
        None => true,
    }
}

/// Whether a token with this expiry is expired now. Whatever the clock
/// reads, an expiry that cannot be parsed counts as expired, and so does any
/// expiry when the clock reads before the Unix epoch.
pub fn is_expired(expires_at: &str) -> (r: bool)
    ensures
        exists|now: Option<UtcInstant>|
            (now matches Some(i) ==> i.secs >= 0 && i.nanos < 1_000_000_000) && r == expired_when(
                expires_at@,
                now,
            ),
        parse_rfc3339_spec(expires_at@) is None ==> r,
{
    let reading = current_instant();
    let r = match reading {
        Some(now) => is_expired_at(expires_at, now),
        None => true,
    };
    assert(r == expired_when(expires_at@, reading));
    r
}

/// Milliseconds since the Unix epoch of a parsed date-time, as chrono's
/// `timestamp_millis` counts them (whole seconds times 1000 plus the whole
/// milliseconds within the second).
pub open spec fn unix_millis(dt: ParsedDateTime) -> int {
    dt.secs * 1000 + dt.nanos / 1_000_000
}

/// The millisecond count of a date-time is whole seconds times 1000 plus the
/// whole milliseconds of its nanoseconds, whatever UTC offset it was written
/// with: two date-times of the same instant have the same count.
pub proof fn law_millis_count_the_instant(dt: ParsedDateTime, offset_secs: i32)
    ensures
        unix_millis(dt) == dt.secs * 1000 + dt.nanos / 1_000_000,
        unix_millis(dt) == unix_millis(ParsedDateTime { offset_secs, ..dt }),
{
}

/// A date-time's milliseconds since the Unix epoch, converted to `u64` the
/// way `as` does (two's complement truncation).
pub fn millis_u64(dt: ParsedDateTime) -> (r: u64)
    ensures
        r == unix_millis(dt) as u64,
{
    let ms: i128 = (dt.secs as i128) * 1000 + ((dt.nanos / 1_000_000) as i128);
    ms as u64
}

/// The expiry in milliseconds since the Unix epoch, converted to `u64` the
/// way `as` does (two's complement truncation); `None` when it cannot be parsed.
pub fn expires_at_ms(expires_at: &str) -> (r: Option<u64>)
    ensures
        match parse_rfc3339_spec(expires_at@) {
            Some(dt) => r == Some(unix_millis(dt) as u64),
            None => r is None,
        },
{
    match parse_rfc3339(expires_at) {
        Some(dt) => Some(millis_u64(dt)),
        None => None,
    }
}

/// The text `chrono::DateTime::<Utc>::to_rfc3339` writes for the instant
/// (Unix seconds, nanoseconds), or `None` when chrono cannot represent it.
pub uninterp spec fn utc_rfc3339_text(secs: i64, nanos: u32) -> Option<Seq<char>>;

/// Builds the UTC date-time with `chrono::DateTime::from_timestamp` and
/// writes it with `to_rfc3339`. The contract claims only that the outcome is
/// determined by the instant (the name `utc_rfc3339_text`); the text's form
/// and the representable range are not stated.
#[verifier::external_body]
fn chrono_utc_rfc3339(secs: i64, nanos: u32) -> (r: Option<String>)
    ensures
        match utc_rfc3339_text(secs, nanos) {
            Some(t) => r matches Some(out) && out@ == t,
            None => r is None,
        },
{
    match chrono::DateTime::from_timestamp(secs, nanos) {
        Some(dt) => Some(dt.to_rfc3339()),
        None => None,
    }
}

/// Largest number of whole seconds a chrono `TimeDelta` holds (`i64::MAX`
/// milliseconds).
pub const MAX_DELTA_SECS: i64 = 9_223_372_036_854_775;

/// The expiry text for a token refreshed at `now` that lives `expires_in`
/// seconds: `now` plus `expires_in` (taken as `i64` the way `as` does) seconds,
/// written as RFC 3339. `None` where that delta or sum is out of chrono's range.
pub open spec fn refresh_expiry_spec(now: UtcInstant, expires_in: u64) -> Option<Seq<char>> {
    let delta = expires_in as i64;
    if delta > MAX_DELTA_SECS || delta < -MAX_DELTA_SECS {
        None
    } else if now.secs + delta < i64::MIN || now.secs + delta > i64::MAX {
        None
    } else {
        utc_rfc3339_text((now.secs + delta) as i64, now.nanos)
    }
}

/// The RFC 3339 expiry of a token refreshed at `now` with a lifetime of
/// `expires_in` seconds. `None` marks the inputs on which adding the lifetime
/// to the instant leaves chrono's range (where chrono's `DateTime + TimeDelta`
/// panics).
pub fn refresh_expiry(now: UtcInstant, expires_in: u64) -> (r: Option<String>)
    ensures
        match refresh_expiry_spec(now, expires_in) {
            Some(t) => r matches Some(out) && out@ == t,
            None => r is None,
        },
{
    let delta = expires_in as i64;
    if delta > MAX_DELTA_SECS || delta < -MAX_DELTA_SECS {
        return None;
    }
    match now.secs.checked_add(delta) {
        Some(secs) => chrono_utc_rfc3339(secs, now.nanos),
        None => None,
    }
}

} // verus!
