//! The configuration panel component: the decisions behind its controls.
//!
//! Rendering (text fields, buttons, status colors) belongs to the
//! presentation layer outside this crate; what is decided here is when the
//! panel's transfer controls are available at all.

use vstd::prelude::*;

use crate::config::SyncConfig;

verus! {

/// Component handling the configuration settings shown to the user.
pub struct ConfigPanel;

impl ConfigPanel {
    /// Whether the update and verify controls are enabled: only when the
    /// configuration is complete, since neither a refresh nor a local
    /// verification can do anything without a source locator and a
    /// destination path.
    pub fn controls_enabled(config: &SyncConfig) -> (r: bool)
        ensures
            r == config.spec_is_complete(),
    {
        config.is_complete()
    }
}

} // verus!
