//! The settings of the impact module.

use vstd::prelude::*;

verus! {

/// Seconds for which a git snapshot stays fresh, where nothing else is set.
pub const DEFAULT_CACHE_TTL_SECS: u64 = 5;

/// The warning band reaches up to this score, where nothing else is set.
pub const DEFAULT_WARN_THRESHOLD: i64 = 50;

/// The critical band reaches up to this score, where nothing else is set.
pub const DEFAULT_CRITICAL_THRESHOLD: i64 = 20;

/// The `[cship.impact]` section. The weights of the score are not part of it: they
/// belong to whoever does the arithmetic of the score.
///
/// A threshold is the highest score that still belongs to its band. One below zero
/// is a band that no score reaches.
pub struct ImpactConfig {
    pub disabled: Option<bool>,
    pub cache_ttl_secs: Option<u64>,
    pub style: Option<String>,
    pub warn_threshold: Option<i64>,
    pub warn_style: Option<String>,
    pub critical_threshold: Option<i64>,
    pub critical_style: Option<String>,
    pub symbol: Option<String>,
    pub label: Option<bool>,
    pub show_delta: Option<bool>,
    pub format: Option<String>,
}

/// The settings that leave everything at its default.
pub open spec fn unset() -> ImpactConfig {
    ImpactConfig {
        disabled: None,
        cache_ttl_secs: None,
        style: None,
        warn_threshold: None,
        warn_style: None,
        critical_threshold: None,
        critical_style: None,
        symbol: None,
        label: None,
        show_delta: None,
        format: None,
    }
}

impl Default for ImpactConfig {
    fn default() -> (settings: Self)
        ensures
            settings == unset(),
    {
        ImpactConfig {
            disabled: None,
            cache_ttl_secs: None,
            style: None,
            warn_threshold: None,
            warn_style: None,
            critical_threshold: None,
            critical_style: None,
            symbol: None,
            label: None,
            show_delta: None,
            format: None,
        }
    }
}

/// The statusline configuration, as far as the impact module reads it.
pub struct CshipConfig {
    pub impact: Option<ImpactConfig>,
}

impl CshipConfig {
    /// The settings of the impact module: all defaults where the section is missing.
    pub open spec fn settings(self) -> ImpactConfig {
        match self.impact {
            Some(c) => c,
            None => unset(),
        }
    }
}

} // verus!
