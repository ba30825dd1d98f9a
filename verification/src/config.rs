//! Process configuration, as the orchestrator reads it. Loading it from disk
//! and decoding it belong to the shell around the library; the orchestrator
//! works on these plain values.

use vstd::prelude::*;
use crate::modules::Config as ModuleConfig;

verus! {

/// Top-level configuration: the connection token, the persistent store's
/// location, the identifier of the home guild, and one optional section per
/// module (an absent section disables the module).
pub struct Config {
    pub token: String,
    pub db_url: String,
    pub home_guild: u64,
    pub modules: Option<ModuleConfig>,
}

} // verus!
