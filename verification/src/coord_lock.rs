//! Coordination lock between lifecycle hooks and the sessions.db janitor:
//! where the lock lives, how long a hook waits for it, and what each attempt
//! to take it decides.

use vstd::prelude::*;
use crate::config::HooksConfig;

verus! {

/// Default time, in seconds, a hook waits for the janitor to finish its
/// current pass.
pub const DEFAULT_TIMEOUT_SECS: u64 = 180;

/// Pause, in milliseconds, between two attempts on a contended lock.
pub const RETRY_INTERVAL_MS: u64 = 500;

/// Where the coordination lock lives and how long to wait for it.
#[derive(Clone, Debug)]
pub struct CoordLockSpec {
    pub path: String,
    pub timeout_secs: u64,
}

/// `rel` joined onto `base` the way `PathBuf::join` joins a relative path on
/// Unix: a `/` goes between them unless `base` is empty or already ends in `/`.
pub open spec fn join_path(base: Seq<char>, rel: Seq<char>) -> Seq<char> {
    if base.len() == 0 {
        rel
    } else if base.last() == '/' {
        base + rel
    } else {
        base + "/"@ + rel
    }
}

/// The default lock path: `.local/share/devin/cli/.janitor.lock` under the
/// home directory, or under `/home/agent` when there is none.
pub open spec fn default_lock_path_spec(home: Option<Seq<char>>) -> Seq<char> {
    let base = match home {
        Some(h) => h,
        None => "/home/agent"@,
    };
    join_path(base, ".local/share/devin/cli/.janitor.lock"@)
}

/// The characters of an optional string.
pub open spec fn opt_view(s: Option<&str>) -> Option<Seq<char>> {
    match s {
        Some(t) => Some(t@),
        None => None,
    }
}

/// Default lock path relative to the home directory (`home` is the value of
/// `HOME`), matching the janitor's own default.
pub fn default_lock_path(home: Option<&str>) -> (r: String)
    ensures
        r@ == default_lock_path_spec(opt_view(home)),
{
    let base: &str = match home {
        Some(h) => h,
        None => "/home/agent",
    };
    let n = base.unicode_len();
    let mut path = base.to_owned();
    if n > 0 && base.get_char(n - 1) != '/' {
        path.append("/");
    }
    path.append(".local/share/devin/cli/.janitor.lock");
    path
}

impl CoordLockSpec {
    /// The spec a hooks section resolves to: none when no hook is configured;
    /// otherwise the configured lock path (else the default one) and the
    /// configured timeout (else 180 seconds).
    pub open spec fn resolved(hooks: HooksConfig, home: Option<Seq<char>>) -> Option<(Seq<char>, u64)> {
        if !hooks.has_hooks() {
            None
        } else {
            let path = match hooks.coordination_lock {
                Some(p) => p@,
                None => default_lock_path_spec(home),
            };
            let timeout = match hooks.coordination_lock_timeout_seconds {
                Some(t) => t,
                None => DEFAULT_TIMEOUT_SECS,
            };
            Some((path, timeout))
        }
    }

    /// Resolve the spec from `[hooks]` config (`home` is the value of `HOME`).
    /// Returns `None` when no hooks are configured (nothing to interlock).
    pub fn resolve(hooks: &HooksConfig, home: Option<&str>) -> (r: Option<Self>)
        ensures
            match Self::resolved(*hooks, opt_view(home)) {
                Some((path, timeout)) => r matches Some(spec) && spec.path@ == path
                    && spec.timeout_secs == timeout,
                None => r is None,
            },
    {
        if !hooks.any_configured() {
            return None;
        }
        let path = match &hooks.coordination_lock {
            Some(p) => p.clone(),
            None => default_lock_path(home),
        };
        let timeout_secs = match hooks.coordination_lock_timeout_seconds {
            Some(t) => t,
            None => DEFAULT_TIMEOUT_SECS,
        };
        Some(CoordLockSpec { path, timeout_secs })
    }
}

/// The configured timeout is used whenever hooks are configured, whether or
/// not a lock path is configured too; 180 seconds only when none is set.
pub proof fn law_configured_timeout_is_used(hooks: HooksConfig, home: Option<Seq<char>>)
    requires
        hooks.has_hooks(),
    ensures
        CoordLockSpec::resolved(hooks, home) is Some,
        hooks.coordination_lock_timeout_seconds matches Some(t) ==> (CoordLockSpec::resolved(
            hooks,
            home,
        ) matches Some((_, rt)) && rt == t),
        hooks.coordination_lock_timeout_seconds is None ==> (CoordLockSpec::resolved(
            hooks,
            home,
        ) matches Some((_, rt)) && rt == 180),
{
}

/// The lock path and the timeout are resolved independently: configuring a
/// lock path does not change the timeout, and configuring a timeout does not
/// change the path.
pub proof fn law_path_and_timeout_are_independent(
    hooks: HooksConfig,
    lock: Option<String>,
    timeout: Option<u64>,
    home: Option<Seq<char>>,
)
    requires
        hooks.has_hooks(),
    ensures
        ({
            let a = CoordLockSpec::resolved(hooks, home);
            let b = CoordLockSpec::resolved(HooksConfig { coordination_lock: lock, ..hooks }, home);
            a matches Some((_, ta)) && b matches Some((_, tb)) && ta == tb
        }),
        ({
            let a = CoordLockSpec::resolved(hooks, home);
            let c = CoordLockSpec::resolved(
                HooksConfig { coordination_lock_timeout_seconds: timeout, ..hooks },
                home,
            );
            a matches Some((pa, _)) && c matches Some((pc, _)) && pa == pc
        }),
{
}

/// A configured lock path is used as it is, and HOME then plays no part.
pub proof fn law_configured_path_is_used(hooks: HooksConfig, home: Option<Seq<char>>)
    requires
        hooks.has_hooks(),
        hooks.coordination_lock is Some,
    ensures
        CoordLockSpec::resolved(hooks, home) matches Some((p, _)) && p
            == hooks.coordination_lock->0@,
{
}

/// With no lifecycle hook configured there is nothing to interlock: no spec,
/// whatever lock path or timeout is configured.
pub proof fn law_no_hooks_no_lock(hooks: HooksConfig, home: Option<Seq<char>>)
    requires
        !hooks.has_hooks(),
    ensures
        CoordLockSpec::resolved(hooks, home) is None,
{
}

/// Without a configured lock path, the lock is `.local/share/devin/cli/.janitor.lock`
/// under HOME (a `/` between them unless HOME already ends in one), or under
/// `/home/agent` when HOME is not set.
pub proof fn law_default_lock_path_is_under_home(hooks: HooksConfig, home: Option<Seq<char>>)
    requires
        hooks.has_hooks(),
        hooks.coordination_lock is None,
    ensures
        home matches Some(h) ==> (h.len() > 0 && h.last() != '/' ==> (CoordLockSpec::resolved(
            hooks,
            home,
        ) matches Some((p, _)) && p == h + "/.local/share/devin/cli/.janitor.lock"@)),
        home matches Some(h) ==> (h.len() > 0 && h.last() == '/' ==> (CoordLockSpec::resolved(
            hooks,
            home,
        ) matches Some((p, _)) && p == h + ".local/share/devin/cli/.janitor.lock"@)),
        home is None ==> (CoordLockSpec::resolved(hooks, home) matches Some((p, _)) && p
            == "/home/agent/.local/share/devin/cli/.janitor.lock"@),
{
    reveal_strlit("/");
    reveal_strlit("/home/agent");
    reveal_strlit(".local/share/devin/cli/.janitor.lock");
    reveal_strlit("/.local/share/devin/cli/.janitor.lock");
    reveal_strlit("/home/agent/.local/share/devin/cli/.janitor.lock");
    let rel = ".local/share/devin/cli/.janitor.lock"@;
    assert("/"@ + rel =~= "/.local/share/devin/cli/.janitor.lock"@);
    assert("/home/agent"@ + "/"@ + rel =~= "/home/agent/.local/share/devin/cli/.janitor.lock"@);
    if let Some(h) = home {
        assert(h + "/"@ + rel =~= h + "/.local/share/devin/cli/.janitor.lock"@);
    }
}

/// What one non-blocking attempt to take the lock (`flock(LOCK_EX | LOCK_NB)`)
/// came to.
#[derive(Clone, Copy, Debug, PartialEq, Eq, Structural)]
pub enum FlockOutcome {
    /// The lock is now held.
    Locked,
    /// Someone else holds it, or the call was interrupted: worth another try.
    Busy,
    /// Any other failure, with the OS error code.
    Failed(i32),
}

/// The outcome of a `flock(LOCK_EX | LOCK_NB)` call from its return code and
/// the OS error code it left: taken when it returned 0; busy when the error is
/// one of the codes of a lock held elsewhere or an interrupted call (the
/// platform's `EWOULDBLOCK`, `EAGAIN`, `EINTR`); any other error otherwise
/// (code 0 when there is none).
pub open spec fn flock_outcome_spec(
    rc: i32,
    os_error: Option<i32>,
    would_block: i32,
    again: i32,
    interrupted: i32,
) -> FlockOutcome {
    if rc == 0 {
        FlockOutcome::Locked
    } else {
        match os_error {
            Some(code) => if code == would_block || code == again || code == interrupted {
                FlockOutcome::Busy
            } else {
                FlockOutcome::Failed(code)
            },
            None => FlockOutcome::Failed(0),
        }
    }
}

/// Classify a `flock` attempt (see `flock_outcome_spec`).
pub fn flock_outcome(rc: i32, os_error: Option<i32>, would_block: i32, again: i32, interrupted: i32) -> (r:
    FlockOutcome)
    ensures
        r == flock_outcome_spec(rc, os_error, would_block, again, interrupted),
{
    if rc == 0 {
        FlockOutcome::Locked
    } else {
        match os_error {
            Some(code) => if code == would_block || code == again || code == interrupted {
                FlockOutcome::Busy
            } else {
                FlockOutcome::Failed(code)
            },
            None => FlockOutcome::Failed(0),
        }
    }
}

/// What to do after an attempt.
#[derive(Clone, Copy, Debug, PartialEq, Eq, Structural)]
pub enum LockStep {
    /// The lock is held: hand out the guard.
    Acquired,
    /// Sleep this many milliseconds, then try again.
    RetryAfterMillis(u64),
    /// The wait reached its timeout: refuse to race the janitor.
    TimedOut,
    /// `flock` failed for another reason, with this OS error code.
    FlockFailed(i32),
}

/// The decision after an attempt, `elapsed_nanos` after the wait began, for a
/// wait of `timeout_secs` seconds.
pub open spec fn lock_step_spec(outcome: FlockOutcome, elapsed_nanos: u128, timeout_secs: u64) -> LockStep {
    match outcome {
        FlockOutcome::Locked => LockStep::Acquired,
        FlockOutcome::Failed(code) => LockStep::FlockFailed(code),
        FlockOutcome::Busy => if elapsed_nanos >= timeout_secs * 1_000_000_000 {
            LockStep::TimedOut
        } else {
            LockStep::RetryAfterMillis(RETRY_INTERVAL_MS)
        },
    }
}

/// Decide what follows an attempt to take the lock: success hands out the
/// guard, an unexpected failure is reported at once, and a busy lock is
/// retried every 500 ms until the timeout has elapsed.
pub fn next_lock_step(outcome: FlockOutcome, elapsed_nanos: u128, timeout_secs: u64) -> (r: LockStep)
    ensures
        r == lock_step_spec(outcome, elapsed_nanos, timeout_secs),
{
    match outcome {
        FlockOutcome::Locked => LockStep::Acquired,
        FlockOutcome::Failed(code) => LockStep::FlockFailed(code),
        FlockOutcome::Busy => {
            let limit: u128 = (timeout_secs as u128) * 1_000_000_000;
            if elapsed_nanos >= limit {
                LockStep::TimedOut
            } else {
                LockStep::RetryAfterMillis(RETRY_INTERVAL_MS)
            }
        },
    }
}

/// The lock is reported acquired exactly when the attempt took it: waiting
/// never turns a busy or failed attempt into a held lock.
pub proof fn law_acquired_only_when_locked(outcome: FlockOutcome, elapsed_nanos: u128, timeout_secs: u64)
    ensures
        (lock_step_spec(outcome, elapsed_nanos, timeout_secs) is Acquired) <==> (outcome is Locked),
{
}

/// An unexpected `flock` failure is reported at once and never retried.
pub proof fn law_failure_is_not_retried(code: i32, elapsed_nanos: u128, timeout_secs: u64)
    ensures
        lock_step_spec(FlockOutcome::Failed(code), elapsed_nanos, timeout_secs) == LockStep::FlockFailed(code),
{
}

/// A busy lock is waited for only until the timeout: once that much time has
/// passed the wait ends with a timeout (at once, for a zero timeout), and
/// before it the next attempt comes 500 ms later.
pub proof fn law_busy_lock_waits_until_timeout(elapsed_nanos: u128, timeout_secs: u64)
    ensures
        elapsed_nanos >= timeout_secs * 1_000_000_000 ==> lock_step_spec(FlockOutcome::Busy, elapsed_nanos, timeout_secs)
            == LockStep::TimedOut,
        elapsed_nanos < timeout_secs * 1_000_000_000 ==> lock_step_spec(FlockOutcome::Busy, elapsed_nanos, timeout_secs)
            == LockStep::RetryAfterMillis(RETRY_INTERVAL_MS),
        lock_step_spec(FlockOutcome::Busy, elapsed_nanos, 0) == LockStep::TimedOut,
{
}

} // verus!
