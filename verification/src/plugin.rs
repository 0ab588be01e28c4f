//! The borders plugin: a set of border settings and the operations that
//! apply them to a captured image.

use vstd::prelude::*;
use crate::config::{default_border_config, BorderConfig};

verus! {

/// Adds a border, and optionally padding, a drop shadow and rounded corners,
/// to captured images.
pub struct BordersPlugin {
    config: BorderConfig,
}

impl BordersPlugin {
    /// The settings this plugin applies.
    pub closed spec fn settings(&self) -> BorderConfig {
        self.config
    }

    /// A plugin with the settings that were loaded, or with the default
    /// settings where nothing was.
    pub fn new(loaded: Option<BorderConfig>) -> (plugin: Self)
        ensures
            plugin.settings() == match loaded {
                Some(config) => config,
                None => default_border_config(),
            },
    {
        match loaded {
            Some(config) => BordersPlugin { config },
            None => BordersPlugin { config: BorderConfig::default() },
        }
    }

    /// A plugin with the given settings.
    pub fn with_config(config: BorderConfig) -> (plugin: Self)
        ensures
            plugin.settings() == config,
    {
        BordersPlugin { config }
    }

    /// Reads the settings.
    pub fn config(&self) -> (config: &BorderConfig)
        ensures
            *config == self.settings(),
    {
        &self.config
    }
}

impl Default for BordersPlugin {
    fn default() -> (plugin: Self)
        ensures
            plugin.settings() == default_border_config(),
    {
        BordersPlugin::new(None)
    }
}

} // verus!
