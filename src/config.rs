//! The persisted application settings. Reading and writing them is left to
//! the caller.
use vstd::prelude::*;

use crate::i18n::Language;
use crate::policy::{preset, PolicyManager, ThresholdAction};

verus! {

/// Application settings.
#[derive(Debug)]
pub struct AppConfig {
    /// Interface language.
    pub language: Language,
    /// Whether statistics refresh automatically.
    pub auto_refresh: bool,
    /// Refresh interval in seconds.
    pub refresh_interval: u64,
    /// The policy store.
    pub policy_manager: PolicyManager,
    /// Version of the stored layout, for migrations.
    pub version: u32,
}

impl Default for AppConfig {
    /// Chinese, refreshing every 5 seconds, an empty policy store, version 1.
    fn default() -> (r: Self)
        ensures
            r.language == Language::Chinese,
            r.auto_refresh,
            r.refresh_interval == 5,
            r.version == 1,
            r.policy_manager.policy_map() == Map::<Seq<char>, crate::policy::AppPolicy>::empty(),
            preset(r.policy_manager.default_policy, 300, 30, None, ThresholdAction::Alert, 100),
            r.policy_manager.whitelist@.len() == 0,
            r.policy_manager.blacklist@.len() == 0,
    {
        AppConfig {
            language: Language::Chinese,
            auto_refresh: true,
            refresh_interval: 5,
            policy_manager: PolicyManager::new(),
            version: 1,
        }
    }
}

} // verus!
