//! The settings of the engine and the pacing of their saving.
//!
//! Reading and writing the settings file is the caller's work. The caller
//! hands in what it found on disk and the reading of a monotonic clock in
//! milliseconds; [`Config`] decides what the settings are and when a write is
//! due.

use vstd::prelude::*;

verus! {

/// The least time between two writes of the settings, in milliseconds.
pub const SAVE_DEBOUNCE_MS: u64 = 500;

/// How much of the GPU may be used, in percent.
#[derive(Clone, Copy, Debug, PartialEq, Eq, Structural)]
pub struct GpuConfig {
    pub limit_percentage: u8,
}

/// Which theme is shown.
#[derive(Clone, Copy, Debug, PartialEq, Eq, Structural)]
pub struct ThemeConfig {
    pub dark_mode: bool,
}

/// Whether voice recognition runs.
#[derive(Clone, Copy, Debug, PartialEq, Eq, Structural)]
pub struct VoiceConfig {
    pub enabled: bool,
}

/// The settings, with what the engine remembers about saving them. Only
/// `gpu`, `theme` and `voice` are stored on disk.
#[derive(Clone, Copy, Debug, PartialEq, Eq, Structural)]
pub struct Config {
    pub gpu: GpuConfig,
    pub theme: ThemeConfig,
    pub voice: VoiceConfig,
    /// Whether the settings were made up because none could be loaded.
    pub was_fresh: bool,
    /// When the settings were last written, on the caller's clock.
    pub last_save: Option<u64>,
    /// Whether the settings changed since they were last written.
    pub dirty: bool,
}

/// What the caller found where the settings file should be.
#[derive(Clone, Copy, Debug, PartialEq, Eq, Structural)]
pub enum StoredConfig {
    /// There is no file.
    Missing,
    /// The file could not be read.
    Unreadable,
    /// The file does not hold settings.
    Corrupt,
    /// The settings that the file holds.
    Loaded(Config),
}

/// The settings of a first run: three quarters of the GPU, the dark theme, no
/// voice recognition.
pub open spec fn default_config() -> Config {
    Config {
        gpu: GpuConfig { limit_percentage: 75 },
        theme: ThemeConfig { dark_mode: true },
        voice: VoiceConfig { enabled: false },
        was_fresh: false,
        last_save: None,
        dirty: false,
    }
}

/// The settings to start with, given what was found on disk: the stored ones
/// where there are any, marked as not fresh; the default ones otherwise,
/// marked as fresh.
pub open spec fn initial_config(stored: StoredConfig) -> Config {
    match stored {
        StoredConfig::Loaded(config) => Config { was_fresh: false, ..config },
        _ => Config { was_fresh: true, ..default_config() },
    }
}

/// The time that passed on the caller's clock from `earlier` to `now`; none
/// where the clock reads less than before.
pub open spec fn elapsed(now: u64, earlier: u64) -> int {
    if now >= earlier {
        now - earlier
    } else {
        0
    }
}

/// Whether a write at `now` would come too soon after the last one.
pub open spec fn within_debounce(config: Config, now: u64) -> bool {
    config.last_save matches Some(last) && elapsed(now, last) < SAVE_DEBOUNCE_MS
}

impl Default for Config {
    fn default() -> (config: Self)
        ensures
            config == default_config(),
    {
        Config {
            gpu: GpuConfig { limit_percentage: 75 },
            theme: ThemeConfig { dark_mode: true },
            voice: VoiceConfig { enabled: false },
            was_fresh: false,
            last_save: None,
            dirty: false,
        }
    }
}

impl Config {
    /// The settings to start with, given what was found on disk, and whether
    /// they are fresh.
    pub fn load_or_default(stored: StoredConfig) -> (loaded: (Config, bool))
        ensures
            loaded.0 == initial_config(stored),
            loaded.1 == loaded.0.was_fresh,
            loaded.1 == !(stored is Loaded),
    {
        match stored {
            StoredConfig::Loaded(config) => {
                let mut config = config;
                config.was_fresh = false;
                (config, false)
            },
            _ => {
                let mut config = Config::default();
                config.was_fresh = true;
                (config, true)
            },
        }
    }

    /// Asks for a write of the settings at `now`. Returns whether the write is
    /// due: where the last write is less than the debounce time ago it is not,
    /// and the settings are marked dirty instead. Where it is due, nothing
    /// changes until the caller reports the write with
    /// [`Config::save_completed`].
    pub fn save_debounced(&mut self, now: u64) -> (write_due: bool)
        ensures
            write_due == !within_debounce(*old(self), now),
            *final(self) == if write_due {
                *old(self)
            } else {
                Config { dirty: true, ..*old(self) }
            },
    {
        if let Some(last_save) = self.last_save {
            if now.saturating_sub(last_save) < SAVE_DEBOUNCE_MS {
                self.dirty = true;
                return false;
            }
        }
        true
    }

    /// Records that the settings were written at `now`.
    pub fn save_completed(&mut self, now: u64)
        ensures
            *final(self) == (Config { last_save: Some(now), dirty: false, ..*old(self) }),
    {
        self.last_save = Some(now);
        self.dirty = false;
    }

    /// Whether the settings are dirty and a write at `now` would not come too
    /// soon after the last one.
    pub fn should_save(&self, now: u64) -> (due: bool)
        ensures
            due == (self.dirty && !within_debounce(*self, now)),
    {
        if !self.dirty {
            return false;
        }
        if let Some(last_save) = self.last_save {
            now.saturating_sub(last_save) >= SAVE_DEBOUNCE_MS
        } else {
            true
        }
    }

    /// Marks the settings as changed since they were last written.
    pub fn mark_dirty(&mut self)
        ensures
            *final(self) == (Config { dirty: true, ..*old(self) }),
    {
        self.dirty = true;
    }
}

/// Writes are paced: a write that is due comes no sooner than the debounce
/// time after the write before it, and a change that was marked in between is
/// still marked when the write becomes due.
pub proof fn law_writes_are_paced(config: Config, last: u64, now: u64)
    requires
        config.last_save == Some(last),
    ensures
        !within_debounce(config, now) ==> now >= last + SAVE_DEBOUNCE_MS,
        within_debounce(config, now) ==> (Config { dirty: true, ..config }).dirty,
        now >= last + SAVE_DEBOUNCE_MS ==> !within_debounce(Config { dirty: true, ..config }, now),
{
}

} // verus!
