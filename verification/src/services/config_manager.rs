//! Keeping the configuration, and registering hotkeys, as the core sees them.

use vstd::prelude::*;
use crate::models::config::{ConfigError, Configuration, HotkeyError, HotkeyInfo, ValidationError};

verus! {

/// Where the configuration is kept between runs.
pub trait ConfigManager {
    /// The stored configuration, or the default one where none is stored or
    /// what is stored cannot be read.
    fn load(&self) -> Result<Configuration, ConfigError>;

    fn save(&self, config: &Configuration) -> Result<(), ConfigError>;

    /// What is wrong with `config`; nothing for a valid one.
    fn validate(&self, config: &Configuration) -> Vec<ValidationError>;

    fn default() -> Configuration;

    /// The absolute path of the file that holds the configuration.
    fn config_path(&self) -> String;

    /// Whether a configuration is stored.
    fn is_stored(&self) -> bool;

    /// Keeps a copy of the stored configuration.
    fn backup(&self) -> Result<(), ConfigError>;
}

/// Global hotkeys, as the operating system registers them.
pub trait HotkeyManager {
    /// Registers a hotkey and returns the id to release it by.
    fn register_hotkey(&mut self, keys: &str) -> Result<u32, HotkeyError>;

    fn unregister_hotkey(&mut self, id: u32) -> Result<(), HotkeyError>;

    fn unregister_all(&mut self);

    fn validate_hotkey(&self, keys: &str) -> Result<(), HotkeyError>;

    /// Takes a hotkey string apart into modifiers and key.
    fn parse_hotkey(&self, keys: &str) -> Result<HotkeyInfo, HotkeyError>;
}

} // verus!
