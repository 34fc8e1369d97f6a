//! The settings file of the desktop program.
//!
//! The caller reads, parses and writes the file; [`ConfigManager`] decides
//! which settings are in force and whether they have to be written.

use vstd::prelude::*;

verus! {

/// The settings of the program.
#[derive(Debug)]
pub struct Config {
    /// The version of the program that wrote the settings.
    pub version: String,
    pub general: GeneralConfig,
}

/// The general settings.
#[derive(Debug)]
pub struct GeneralConfig {
    pub theme: String,
    /// How much GPU memory may be used, in megabytes.
    pub gpu_limit_mb: u32,
    pub telemetry: bool,
}

/// Mathematical value of a [`GeneralConfig`].
pub struct GeneralConfigView {
    pub theme: Seq<char>,
    pub gpu_limit_mb: u32,
    pub telemetry: bool,
}

/// Mathematical value of a [`Config`].
pub struct ConfigView {
    pub version: Seq<char>,
    pub general: GeneralConfigView,
}

impl View for GeneralConfig {
    type V = GeneralConfigView;

    open spec fn view(&self) -> GeneralConfigView {
        GeneralConfigView {
            theme: self.theme@,
            gpu_limit_mb: self.gpu_limit_mb,
            telemetry: self.telemetry,
        }
    }
}

impl View for Config {
    type V = ConfigView;

    open spec fn view(&self) -> ConfigView {
        ConfigView { version: self.version@, general: self.general@ }
    }
}

impl Clone for GeneralConfig {
    fn clone(&self) -> (copy: Self)
        ensures
            copy@ == self@,
    {
        GeneralConfig {
            theme: self.theme.clone(),
            gpu_limit_mb: self.gpu_limit_mb,
            telemetry: self.telemetry,
        }
    }
}

impl Clone for Config {
    fn clone(&self) -> (copy: Self)
        ensures
            copy@ == self@,
    {
        Config { version: self.version.clone(), general: self.general.clone() }
    }
}

/// The settings of a first run: the dark theme, a gigabyte of GPU memory, no
/// telemetry.
pub open spec fn default_config() -> ConfigView {
    ConfigView {
        version: "0.1.0"@,
        general: GeneralConfigView { theme: "dark"@, gpu_limit_mb: 1024, telemetry: false },
    }
}

impl Default for Config {
    fn default() -> (config: Self)
        ensures
            config@ == default_config(),
    {
        Config {
            version: "0.1.0".to_string(),
            general: GeneralConfig {
                theme: "dark".to_string(),
                gpu_limit_mb: 1024,
                telemetry: false,
            },
        }
    }
}

/// What the caller found where the settings file should be.
#[derive(Debug)]
pub enum StoredConfig {
    /// There is no file.
    Missing,
    /// The file could not be read.
    Unreadable,
    /// The file does not hold settings.
    Corrupt,
    /// The settings that the file holds.
    Loaded(Config),
}

/// Mathematical value of a [`ConfigManager`].
pub struct ConfigManagerView {
    pub config_path: Seq<char>,
    pub config: ConfigView,
    pub dirty: bool,
}

/// The manager after it took in what was found on disk: the stored settings
/// where there are any, which then need no writing; the default ones
/// otherwise, which do.
pub open spec fn after_load(v: ConfigManagerView, stored: StoredConfig) -> ConfigManagerView {
    match stored {
        StoredConfig::Loaded(config) => ConfigManagerView {
            config_path: v.config_path,
            config: config@,
            dirty: false,
        },
        _ => ConfigManagerView { config_path: v.config_path, config: default_config(), dirty: true },
    }
}

/// Holds the settings in force and knows whether they differ from the file.
#[derive(Debug)]
pub struct ConfigManager {
    config_path: String,
    config: Config,
    dirty: bool,
}

impl View for ConfigManager {
    type V = ConfigManagerView;

    closed spec fn view(&self) -> ConfigManagerView {
        ConfigManagerView {
            config_path: self.config_path@,
            config: self.config@,
            dirty: self.dirty,
        }
    }
}

impl ConfigManager {
    /// A manager of the settings file at `config_path`, with the default
    /// settings until the file is loaded.
    pub fn new(config_path: String) -> (manager: Self)
        ensures
            manager@ == (ConfigManagerView {
                config_path: config_path@,
                config: default_config(),
                dirty: false,
            }),
    {
        ConfigManager { config_path, config: Config::default(), dirty: false }
    }

    /// Takes in what was found on disk. Returns whether the file has to be
    /// written, which is the case whenever no settings could be loaded from
    /// it.
    pub fn load(&mut self, stored: StoredConfig) -> (write_due: bool)
        ensures
            final(self)@ == after_load(old(self)@, stored),
            write_due == final(self)@.dirty,
    {
        match stored {
            StoredConfig::Loaded(config) => {
                self.config = config;
                self.dirty = false;
                false
            },
            _ => {
                self.config = Config::default();
                self.dirty = true;
                true
            },
        }
    }

    /// Puts the default settings in force, which then have to be written.
    pub fn reset(&mut self)
        ensures
            final(self)@ == (ConfigManagerView {
                config: default_config(),
                dirty: true,
                ..old(self)@
            }),
    {
        self.config = Config::default();
        self.dirty = true;
    }

    /// Whether the settings differ from the file, so that a write is due.
    pub fn needs_save(&self) -> (due: bool)
        ensures
            due == self@.dirty,
    {
        self.dirty
    }

    /// Records that the settings were written to the file.
    pub fn save_completed(&mut self)
        ensures
            final(self)@ == (ConfigManagerView { dirty: false, ..old(self)@ }),
    {
        self.dirty = false;
    }

    /// The settings in force.
    pub fn config(&self) -> (config: &Config)
        ensures
            config@ == self@.config,
    {
        &self.config
    }

    /// Where the settings file is.
    pub fn config_path(&self) -> (path: &String)
        ensures
            path@ == self@.config_path,
    {
        &self.config_path
    }
}

} // verus!
