//! Building and checking a [`HubConfig`].
use vstd::prelude::*;

use crate::models::{HubConfig, HubFeatures, NamedValue, default_features_spec};
use crate::text::{parse_bool, parse_bool_spec, parse_unsigned, parse_unsigned_spec};

verus! {

/// The message returned when an enabled configuration has no hub URL.
pub open spec fn empty_url_message() -> Seq<char> {
    "hub_url is empty"@
}

/// The message returned when an enabled configuration has no API key.
pub open spec fn empty_key_message() -> Seq<char> {
    "api_key is empty - set LOVE_UNLIMITED_KEY environment variable"@
}

/// What `validate` answers for a configuration.
pub open spec fn validation_spec(cfg: HubConfig) -> Result<(), Seq<char>> {
    if !cfg.enabled {
        Ok(())
    } else if cfg.hub_url@.len() == 0 {
        Err(empty_url_message())
    } else if cfg.api_key@.len() == 0 {
        Err(empty_key_message())
    } else {
        Ok(())
    }
}

/// The shape of the configuration that `disabled` returns.
pub open spec fn is_disabled_config(cfg: HubConfig) -> bool {
    &&& !cfg.enabled
    &&& cfg.hub_url@.len() == 0
    &&& cfg.api_key@.len() == 0
    &&& cfg.timeout_secs == 5
    &&& cfg.max_retries == 3
    &&& default_features_spec(cfg.features)
}

impl HubConfig {
    /// Create a disabled configuration.
    pub fn disabled() -> (cfg: Self)
        ensures
            is_disabled_config(cfg),
    {
        HubConfig {
            enabled: false,
            hub_url: String::new(),
            api_key: String::new(),
            timeout_secs: 5,
            max_retries: 3,
            features: HubFeatures::default(),
        }
    }

    /// Validate configuration.
    pub fn validate(&self) -> (res: Result<(), String>)
        ensures
            match (res, validation_spec(*self)) {
                (Ok(()), Ok(())) => true,
                (Err(m), Err(s)) => m@ == s,
                _ => false,
            },
    {
        if !self.enabled {
            return Ok(());
        }
        if self.hub_url.as_str().is_empty() {
            return Err("hub_url is empty".to_string());
        }
        if self.api_key.as_str().is_empty() {
            return Err("api_key is empty - set LOVE_UNLIMITED_KEY environment variable".to_string());
        }
        Ok(())
    }
}

/// The value of the first variable called `name`.
pub open spec fn env_lookup(vars: Seq<NamedValue>, name: Seq<char>) -> Option<Seq<char>>
    decreases vars.len(),
{
    if vars.len() == 0 {
        None
    } else if vars[0].name@ == name {
        Some(vars[0].value@)
    } else {
        env_lookup(vars.drop_first(), name)
    }
}

/// A text setting: the variable's value, or `default` where it is not set.
pub open spec fn text_setting(v: Option<Seq<char>>, default: Seq<char>) -> Seq<char> {
    match v {
        Some(s) => s,
        None => default,
    }
}

/// A boolean setting: `true` or `false`, or `default` where the variable is
/// not set or holds anything else.
pub open spec fn bool_setting(v: Option<Seq<char>>, default: bool) -> bool {
    match v {
        Some(s) => match parse_bool_spec(s) {
            Some(b) => b,
            None => default,
        },
        None => default,
    }
}

/// A number setting of at most `max`, or `default` where the variable is not
/// set or does not hold such a number.
pub open spec fn number_setting(v: Option<Seq<char>>, max: nat, default: nat) -> nat {
    match v {
        Some(s) => match parse_unsigned_spec(s, max) {
            Some(n) => n,
            None => default,
        },
        None => default,
    }
}

/// The configuration that the environment `vars` describes.
pub open spec fn env_config(vars: Seq<NamedValue>, cfg: HubConfig) -> bool {
    if !bool_setting(env_lookup(vars, "LOVE_UNLIMITED_ENABLED"@), true) {
        is_disabled_config(cfg)
    } else {
        &&& cfg.enabled
        &&& cfg.hub_url@ == text_setting(
            env_lookup(vars, "LOVE_UNLIMITED_URL"@),
            "http://localhost:9003"@,
        )
        &&& cfg.api_key@ == text_setting(env_lookup(vars, "LOVE_UNLIMITED_KEY"@), ""@)
        &&& cfg.timeout_secs == number_setting(
            env_lookup(vars, "LOVE_UNLIMITED_TIMEOUT"@),
            u64::MAX as nat,
            5,
        )
        &&& cfg.max_retries == number_setting(
            env_lookup(vars, "LOVE_UNLIMITED_MAX_RETRIES"@),
            u32::MAX as nat,
            3,
        )
        &&& cfg.features.log_completions == bool_setting(
            env_lookup(vars, "LOVE_UNLIMITED_LOG_COMPLETIONS"@),
            true,
        )
        &&& cfg.features.log_user_events == bool_setting(
            env_lookup(vars, "LOVE_UNLIMITED_LOG_USER_EVENTS"@),
            true,
        )
        &&& cfg.features.track_errors == bool_setting(
            env_lookup(vars, "LOVE_UNLIMITED_TRACK_ERRORS"@),
            true,
        )
        &&& cfg.features.enrich_context == bool_setting(
            env_lookup(vars, "LOVE_UNLIMITED_ENRICH_CONTEXT"@),
            false,
        )
    }
}

/// The value of the first variable called `name`.
pub fn env_var(vars: &Vec<NamedValue>, name: &str) -> (res: Option<String>)
    ensures
        match res {
            Some(v) => env_lookup(vars@, name@) == Some(v@),
            None => env_lookup(vars@, name@) is None,
        },
{
    let target = name.to_string();
    let mut i: usize = 0;
    assert(vars@.skip(0) =~= vars@);
    while i < vars.len()
        invariant
            i <= vars@.len(),
            target@ == name@,
            env_lookup(vars@, name@) == env_lookup(vars@.skip(i as int), name@),
        decreases vars.len() - i,
    {
        assert(vars@.skip(i as int)[0] == vars@[i as int]);
        if vars[i].name == target {
            return Some(vars[i].value.clone());
        }
        assert(vars@.skip(i as int).drop_first() =~= vars@.skip(i + 1));
        i = i + 1;
    }
    None
}

fn bool_var(vars: &Vec<NamedValue>, name: &str, default: bool) -> (b: bool)
    ensures
        b == bool_setting(env_lookup(vars@, name@), default),
{
    match env_var(vars, name) {
        Some(v) => match parse_bool(&v) {
            Some(b) => b,
            None => default,
        },
        None => default,
    }
}

fn number_var(vars: &Vec<NamedValue>, name: &str, max: u64, default: u64) -> (n: u64)
    requires
        default <= max,
    ensures
        n as nat == number_setting(env_lookup(vars@, name@), max as nat, default as nat),
{
    match env_var(vars, name) {
        Some(v) => match parse_unsigned(v.as_str(), max) {
            Some(n) => n,
            None => default,
        },
        None => default,
    }
}

impl HubConfig {
    /// Load configuration from environment variables and defaults.
    pub fn from_env_vars(vars: &Vec<NamedValue>) -> (cfg: Self)
        ensures
            env_config(vars@, cfg),
    {
        let enabled = bool_var(vars, "LOVE_UNLIMITED_ENABLED", true);
        if !enabled {
            return Self::disabled();
        }
        let hub_url = match env_var(vars, "LOVE_UNLIMITED_URL") {
            Some(v) => v,
            None => "http://localhost:9003".to_string(),
        };
        let api_key = match env_var(vars, "LOVE_UNLIMITED_KEY") {
            Some(v) => v,
            None => {
                let k = String::new();
                proof {
                    reveal_strlit("");
                    assert(k@ =~= ""@);
                }
                k
            },
        };
        let timeout_secs = number_var(vars, "LOVE_UNLIMITED_TIMEOUT", u64::MAX, 5);
        let retries = number_var(vars, "LOVE_UNLIMITED_MAX_RETRIES", 0xffff_ffffu64, 3);
        let max_retries: u32 = retries as u32;
        let features = HubFeatures {
            log_completions: bool_var(vars, "LOVE_UNLIMITED_LOG_COMPLETIONS", true),
            log_user_events: bool_var(vars, "LOVE_UNLIMITED_LOG_USER_EVENTS", true),
            track_errors: bool_var(vars, "LOVE_UNLIMITED_TRACK_ERRORS", true),
            enrich_context: bool_var(vars, "LOVE_UNLIMITED_ENRICH_CONTEXT", false),
        };
        HubConfig { enabled, hub_url, api_key, timeout_secs, max_retries, features }
    }
}

} // verus!
