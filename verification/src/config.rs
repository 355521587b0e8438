//! The `[hooks]` configuration that the coordination lock is resolved from.

use vstd::prelude::*;

verus! {

/// What to do when a hook fails.
#[derive(Clone, Copy, Debug, PartialEq, Eq, Structural)]
pub enum OnFailure {
    Warn,
    Abort,
}

/// One lifecycle hook: a script, inline commands or a URL to fetch (with an
/// optional checksum), how long it may run, and what its failure means.
#[derive(Clone, Debug)]
pub struct HookConfig {
    pub script: Option<String>,
    pub inline: Option<String>,
    pub url: Option<String>,
    pub sha256: Option<String>,
    pub timeout_seconds: u64,
    pub on_failure: OnFailure,
}

/// The `[hooks]` section: the lifecycle hooks and the coordination lock
/// they share with the sessions.db janitor.
#[derive(Clone, Debug)]
pub struct HooksConfig {
    pub pre_seed: Option<HookConfig>,
    pub pre_boot: Option<HookConfig>,
    pub pre_shutdown: Option<HookConfig>,
    pub coordination_lock: Option<String>,
    pub coordination_lock_timeout_seconds: Option<u64>,
}

impl HooksConfig {
    /// At least one lifecycle hook is set.
    pub open spec fn has_hooks(&self) -> bool {
        self.pre_seed is Some || self.pre_boot is Some || self.pre_shutdown is Some
    }

    /// Whether any lifecycle hook is configured.
    pub fn any_configured(&self) -> (r: bool)
        ensures
            r == self.has_hooks(),
    {
        self.pre_seed.is_some() || self.pre_boot.is_some() || self.pre_shutdown.is_some()
    }
}

impl Default for HooksConfig {
    fn default() -> (r: Self)
        ensures
            r.pre_seed is None,
            r.pre_boot is None,
            r.pre_shutdown is None,
            r.coordination_lock is None,
            r.coordination_lock_timeout_seconds is None,
    {
        HooksConfig {
            pre_seed: None,
            pre_boot: None,
            pre_shutdown: None,
            coordination_lock: None,
            coordination_lock_timeout_seconds: None,
        }
    }
}

} // verus!
