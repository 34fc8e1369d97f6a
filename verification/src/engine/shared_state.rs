//! The state that the subsystems of the engine share, and what each event
//! does to it.
//!
//! [`SharedAppState`] decides; what has to be done outside of it (starting
//! the voice engine, writing the settings, telling the GPU controller its
//! limit) is handed to the caller as an [`Effect`], and the caller reports
//! the outcome of a write back. The caller also supplies the reading of its
//! clock, in milliseconds, wherever an entry is logged.

use vstd::prelude::*;
use crate::engine::config::{
    initial_config,
    within_debounce,
    Config,
    GpuConfig,
    StoredConfig,
    ThemeConfig,
    VoiceConfig,
};
use crate::engine::event_bus::{AppEvent, AppEventView};
use crate::engine::gpu::{check_limit, invalid_limit_text, is_limit_step, is_supported_limit};
use crate::engine::theme::{palette_for, Theme};
use crate::engine::wizard::{closed_wizard, opened_wizard, Wizard, WizardView};
use crate::text::{decimal, decimal_text};

verus! {

/// How many entries the log keeps; older ones are dropped.
pub const MAX_LOG_ENTRIES: usize = 1000;

/// The limit on the GPU that is in force until a supported one is set.
pub const DEFAULT_GPU_LIMIT: u8 = 75;

/// How serious a log entry is.
#[derive(Clone, Copy, Debug, PartialEq, Eq, Structural)]
pub enum LogLevel {
    Info,
    Warning,
    Error,
    Debug,
}

/// One line of the log.
#[derive(Debug)]
pub struct LogEntry {
    /// When the entry was made, on the caller's clock in milliseconds.
    pub timestamp: u64,
    pub message: String,
    pub level: LogLevel,
}

/// Mathematical value of a [`LogEntry`].
pub struct LogEntryView {
    pub timestamp: u64,
    pub message: Seq<char>,
    pub level: LogLevel,
}

impl View for LogEntry {
    type V = LogEntryView;

    open spec fn view(&self) -> LogEntryView {
        LogEntryView { timestamp: self.timestamp, message: self.message@, level: self.level }
    }
}

impl Clone for LogEntry {
    fn clone(&self) -> (copy: Self)
        ensures
            copy@ == self@,
    {
        LogEntry { timestamp: self.timestamp, message: self.message.clone(), level: self.level }
    }
}

/// What the caller has to do after the state took in an event.
#[derive(Clone, Copy, Debug, PartialEq, Eq, Structural)]
pub enum Effect {
    /// Tell the GPU controller that this limit is in force.
    ApplyGpuLimit(u8),
    /// Start the voice engine, switched on.
    StartVoice,
    /// Switch the running voice engine on or off.
    SetVoiceEnabled(bool),
    /// Write the settings now and report with
    /// [`SharedAppState::config_saved`].
    SaveConfig,
}

/// Mathematical value of a [`SharedAppState`].
pub struct SharedAppStateView {
    pub config: Config,
    /// The limit on the GPU that is in force, in percent.
    pub gpu_limit: u8,
    pub dark_mode: bool,
    /// Whether a voice engine exists, and if so whether it is switched on.
    pub voice: Option<bool>,
    pub wizard: WizardView,
    pub quit_requested: bool,
    /// The log, oldest entry first.
    pub log: Seq<LogEntryView>,
}

/// The values of a sequence of log entries.
pub open spec fn log_views(entries: Seq<LogEntry>) -> Seq<LogEntryView> {
    Seq::new(entries.len(), |i: int| entries[i]@)
}

/// The log after `entry` was added: behind all others, and without the
/// oldest entry where the log would grow beyond its limit.
pub open spec fn logged(log: Seq<LogEntryView>, entry: LogEntryView) -> Seq<LogEntryView> {
    let extended = log.push(entry);
    if extended.len() > MAX_LOG_ENTRIES {
        extended.drop_first()
    } else {
        extended
    }
}

/// The state after `message` was logged at `now`.
pub open spec fn with_log(
    v: SharedAppStateView,
    now: u64,
    message: Seq<char>,
    level: LogLevel,
) -> SharedAppStateView {
    SharedAppStateView { log: logged(v.log, LogEntryView { timestamp: now, message, level }), ..v }
}

/// The log message for a refused GPU limit.
pub open spec fn gpu_error_text(limit: u8) -> Seq<char> {
    "GPU Error: "@ + invalid_limit_text(limit)
}

/// The log message for a new GPU limit.
pub open spec fn gpu_limit_text(limit: u8) -> Seq<char> {
    "GPU limit set to "@ + decimal_text(limit as nat) + "%"@
}

/// The log message for a change of theme.
pub open spec fn theme_text(dark_mode: bool) -> Seq<char> {
    if dark_mode {
        "Theme changed to dark"@
    } else {
        "Theme changed to light"@
    }
}

/// The log message for switching the voice engine.
pub open spec fn voice_text(enabled: bool) -> Seq<char> {
    if enabled {
        "Voice engine enabled"@
    } else {
        "Voice engine disabled"@
    }
}

/// The log message for a failed write of the settings.
pub open spec fn save_failed_text(cause: Seq<char>) -> Seq<char> {
    "Config save failed: "@ + cause
}

/// The limit on the GPU that is in force when `requested` is asked for while
/// `current` is: the request where the controller supports it.
pub open spec fn limit_in_force(current: u8, requested: u8) -> u8 {
    if is_limit_step(requested) {
        requested
    } else {
        current
    }
}

/// The state of a start with what was found on disk, logged at `now`: the
/// settings decide the theme, the voice engine and the GPU limit, and the
/// wizard is open exactly on a first run.
pub open spec fn initial_state(stored: StoredConfig, now: u64) -> SharedAppStateView {
    let config = initial_config(stored);
    SharedAppStateView {
        config,
        gpu_limit: limit_in_force(DEFAULT_GPU_LIMIT, config.gpu.limit_percentage),
        dark_mode: config.theme.dark_mode,
        voice: if config.voice.enabled {
            Some(true)
        } else {
            None
        },
        wizard: if config.was_fresh {
            opened_wizard()
        } else {
            closed_wizard()
        },
        quit_requested: false,
        log: seq![
            LogEntryView {
                timestamp: now,
                message: "ZenTerm Birthday MVP started"@,
                level: LogLevel::Info,
            },
        ],
    }
}

/// What the caller has to do at a start with what was found on disk.
pub open spec fn initial_effects(stored: StoredConfig) -> Seq<Effect> {
    let config = initial_config(stored);
    let voice = if config.voice.enabled {
        seq![Effect::StartVoice]
    } else {
        Seq::<Effect>::empty()
    };
    if is_limit_step(config.gpu.limit_percentage) {
        voice.push(Effect::ApplyGpuLimit(config.gpu.limit_percentage))
    } else {
        voice
    }
}

/// The state after `event` was handled at `now`.
pub open spec fn after_event(v: SharedAppStateView, event: AppEventView, now: u64) -> SharedAppStateView {
    match event {
        AppEventView::GpuLimitChanged(limit) => if is_limit_step(limit) {
            with_log(
                SharedAppStateView {
                    config: Config {
                        gpu: GpuConfig { limit_percentage: limit },
                        dirty: true,
                        ..v.config
                    },
                    gpu_limit: limit,
                    ..v
                },
                now,
                gpu_limit_text(limit),
                LogLevel::Info,
            )
        } else {
            with_log(v, now, gpu_error_text(limit), LogLevel::Error)
        },
        AppEventView::ThemeToggled(dark_mode) => with_log(
            SharedAppStateView {
                config: Config { theme: ThemeConfig { dark_mode }, dirty: true, ..v.config },
                dark_mode,
                ..v
            },
            now,
            theme_text(dark_mode),
            LogLevel::Info,
        ),
        AppEventView::VoiceToggled(enabled) => {
            let config = Config { voice: VoiceConfig { enabled }, dirty: true, ..v.config };
            if enabled && v.voice is None {
                with_log(
                    SharedAppStateView { config, voice: Some(true), ..v },
                    now,
                    "Voice engine started"@,
                    LogLevel::Info,
                )
            } else if v.voice is Some {
                with_log(
                    SharedAppStateView { config, voice: Some(enabled), ..v },
                    now,
                    voice_text(enabled),
                    LogLevel::Info,
                )
            } else {
                SharedAppStateView { config, ..v }
            }
        },
        AppEventView::WizardOpened => with_log(
            SharedAppStateView { wizard: opened_wizard(), ..v },
            now,
            "Setup wizard opened"@,
            LogLevel::Info,
        ),
        AppEventView::WizardClosed => with_log(
            SharedAppStateView { wizard: WizardView { is_open: false, ..v.wizard }, ..v },
            now,
            "Setup wizard closed"@,
            LogLevel::Info,
        ),
        AppEventView::ConfigSaveRequested => v,
        AppEventView::LogMessage(message) => with_log(v, now, message, LogLevel::Info),
        AppEventView::QuitRequested => with_log(
            SharedAppStateView { quit_requested: true, ..v },
            now,
            "Quit requested"@,
            LogLevel::Info,
        ),
    }
}

/// What the caller has to do after `event` was handled in the state `v`.
pub open spec fn effects_of(v: SharedAppStateView, event: AppEventView) -> Seq<Effect> {
    match event {
        AppEventView::GpuLimitChanged(limit) => if is_limit_step(limit) {
            seq![Effect::ApplyGpuLimit(limit)]
        } else {
            Seq::empty()
        },
        AppEventView::VoiceToggled(enabled) => if enabled && v.voice is None {
            seq![Effect::StartVoice]
        } else if v.voice is Some {
            seq![Effect::SetVoiceEnabled(enabled)]
        } else {
            Seq::empty()
        },
        AppEventView::ConfigSaveRequested => seq![Effect::SaveConfig],
        _ => Seq::empty(),
    }
}

/// The state after the caller reported, at `now`, how the write that
/// [`Effect::SaveConfig`] asked for went.
pub open spec fn after_save(
    v: SharedAppStateView,
    failure: Option<Seq<char>>,
    now: u64,
) -> SharedAppStateView {
    match failure {
        Some(cause) => with_log(v, now, save_failed_text(cause), LogLevel::Error),
        None => with_log(
            SharedAppStateView { config: Config { dirty: false, ..v.config }, ..v },
            now,
            "Configuration saved"@,
            LogLevel::Info,
        ),
    }
}

/// What the voice engine shows as its status.
pub open spec fn voice_status(voice: Option<bool>) -> Seq<char> {
    if voice == Some(true) {
        "ON"@
    } else {
        "OFF"@
    }
}

/// The last `count` entries of `log`, or all of them where there are fewer.
pub open spec fn recent(log: Seq<LogEntryView>, count: nat) -> Seq<LogEntryView> {
    if count >= log.len() {
        log
    } else {
        log.skip(log.len() - count)
    }
}

/// The state that the subsystems share.
#[derive(Debug)]
pub struct SharedAppState {
    config: Config,
    gpu_limit: u8,
    theme: Theme,
    voice: Option<bool>,
    wizard: Wizard,
    quit_requested: bool,
    log_messages: Vec<LogEntry>,
}

impl View for SharedAppState {
    type V = SharedAppStateView;

    closed spec fn view(&self) -> SharedAppStateView {
        SharedAppStateView {
            config: self.config,
            gpu_limit: self.gpu_limit,
            dark_mode: self.theme.dark_mode,
            voice: self.voice,
            wizard: self.wizard@,
            quit_requested: self.quit_requested,
            log: log_views(self.log_messages@),
        }
    }
}

impl SharedAppState {
    /// The log is within its limit and the colours are those of the theme.
    pub closed spec fn wf(&self) -> bool {
        &&& self.log_messages@.len() <= MAX_LOG_ENTRIES
        &&& self.theme.palette@ == palette_for(self.theme.dark_mode)
    }

    /// The state of a start at `now`, given what was found where the
    /// settings are stored, and what the caller has to do for it.
    pub fn new(stored: StoredConfig, now: u64) -> (created: (Self, Vec<Effect>))
        ensures
            created.0.wf(),
            created.0@ == initial_state(stored, now),
            created.1@ == initial_effects(stored),
    {
        let (config, was_fresh) = Config::load_or_default(stored);
        let mut effects: Vec<Effect> = Vec::new();
        let voice = if config.voice.enabled {
            effects.push(Effect::StartVoice);
            Some(true)
        } else {
            None
        };
        let mut wizard = Wizard::new();
        if was_fresh {
            wizard.open();
        }
        let mut gpu_limit = DEFAULT_GPU_LIMIT;
        if is_supported_limit(config.gpu.limit_percentage) {
            gpu_limit = config.gpu.limit_percentage;
            effects.push(Effect::ApplyGpuLimit(gpu_limit));
        }
        let mut state = SharedAppState {
            config,
            gpu_limit,
            theme: Theme::new(config.theme.dark_mode),
            voice,
            wizard,
            quit_requested: false,
            log_messages: Vec::new(),
        };
        assert(state@.log =~= Seq::empty());
        state.add_log_message("ZenTerm Birthday MVP started".to_string(), LogLevel::Info, now);
        assert(state@.log =~= initial_state(stored, now).log);
        assert(effects@ =~= initial_effects(stored));
        (state, effects)
    }

    /// Adds an entry to the log, made at `now`. The log keeps its newest
    /// entries up to its limit.
    pub fn add_log_message(&mut self, message: String, level: LogLevel, now: u64)
        requires
            old(self).wf(),
        ensures
            final(self).wf(),
            final(self)@ == with_log(old(self)@, now, message@, level),
    {
        let entry = LogEntry { timestamp: now, message, level };
        self.log_messages.push(entry);
        let ghost extended = log_views(self.log_messages@);
        assert(extended =~= old(self)@.log.push(entry@));
        if self.log_messages.len() > MAX_LOG_ENTRIES {
            let _ = self.log_messages.remove(0);
            assert(log_views(self.log_messages@) =~= extended.drop_first());
        }
    }

    /// Takes in `event` at `now` and returns what the caller has to do for
    /// it.
    pub fn handle_event(&mut self, event: AppEvent, now: u64) -> (effects: Vec<Effect>)
        requires
            old(self).wf(),
        ensures
            final(self).wf(),
            final(self)@ == after_event(old(self)@, event@, now),
            effects@ == effects_of(old(self)@, event@),
    {
        match event {
            AppEvent::GpuLimitChanged(limit) => self.on_gpu_limit_changed(limit, now),
            AppEvent::ThemeToggled(dark_mode) => self.on_theme_toggled(dark_mode, now),
            AppEvent::VoiceToggled(enabled) => self.on_voice_toggled(enabled, now),
            AppEvent::WizardOpened => {
                self.wizard.open();
                self.add_log_message("Setup wizard opened".to_string(), LogLevel::Info, now);
                Vec::new()
            },
            AppEvent::WizardClosed => {
                self.wizard.close();
                self.add_log_message("Setup wizard closed".to_string(), LogLevel::Info, now);
                Vec::new()
            },
            AppEvent::ConfigSaveRequested => {
                let mut effects: Vec<Effect> = Vec::new();
                effects.push(Effect::SaveConfig);
                assert(effects@ =~= seq![Effect::SaveConfig]);
                effects
            },
            AppEvent::LogMessage(message) => {
                self.add_log_message(message, LogLevel::Info, now);
                Vec::new()
            },
            AppEvent::QuitRequested => {
                self.quit_requested = true;
                self.add_log_message("Quit requested".to_string(), LogLevel::Info, now);
                Vec::new()
            },
        }
    }

    /// Takes in a request for a limit on the GPU. A limit that the controller
    /// does not support is refused and logged as an error.
    fn on_gpu_limit_changed(&mut self, limit: u8, now: u64) -> (effects: Vec<Effect>)
        requires
            old(self).wf(),
        ensures
            final(self).wf(),
            final(self)@ == after_event(old(self)@, AppEventView::GpuLimitChanged(limit), now),
            effects@ == effects_of(old(self)@, AppEventView::GpuLimitChanged(limit)),
    {
        let mut effects: Vec<Effect> = Vec::new();
        match check_limit(limit) {
            Ok(_) => {
                self.gpu_limit = limit;
                self.config.gpu.limit_percentage = limit;
                self.config.mark_dirty();
                effects.push(Effect::ApplyGpuLimit(limit));
                let message = "GPU limit set to ".to_string().concat(
                    decimal(limit as u64).as_str(),
                ).concat("%");
                self.add_log_message(message, LogLevel::Info, now);
                assert(effects@ =~= seq![Effect::ApplyGpuLimit(limit)]);
            },
            Err(refusal) => {
                let message = "GPU Error: ".to_string().concat(refusal.as_str());
                self.add_log_message(message, LogLevel::Error, now);
            },
        }
        effects
    }

    /// Takes in the choice of a theme.
    fn on_theme_toggled(&mut self, dark_mode: bool, now: u64) -> (effects: Vec<Effect>)
        requires
            old(self).wf(),
        ensures
            final(self).wf(),
            final(self)@ == after_event(old(self)@, AppEventView::ThemeToggled(dark_mode), now),
            effects@ == effects_of(old(self)@, AppEventView::ThemeToggled(dark_mode)),
    {
        self.theme = Theme::new(dark_mode);
        self.config.theme.dark_mode = dark_mode;
        self.config.mark_dirty();
        let message = if dark_mode {
            "Theme changed to dark"
        } else {
            "Theme changed to light"
        };
        self.add_log_message(message.to_string(), LogLevel::Info, now);
        Vec::new()
    }

    /// Takes in the switching of voice recognition. Switching it on without
    /// an engine starts one; switching an engine that exists is passed on to
    /// it; switching it off without an engine only changes the settings.
    fn on_voice_toggled(&mut self, enabled: bool, now: u64) -> (effects: Vec<Effect>)
        requires
            old(self).wf(),
        ensures
            final(self).wf(),
            final(self)@ == after_event(old(self)@, AppEventView::VoiceToggled(enabled), now),
            effects@ == effects_of(old(self)@, AppEventView::VoiceToggled(enabled)),
    {
        let mut effects: Vec<Effect> = Vec::new();
        self.config.voice.enabled = enabled;
        self.config.mark_dirty();
        if enabled && self.voice.is_none() {
            self.voice = Some(true);
            effects.push(Effect::StartVoice);
            self.add_log_message("Voice engine started".to_string(), LogLevel::Info, now);
            assert(effects@ =~= seq![Effect::StartVoice]);
        } else if self.voice.is_some() {
            self.voice = Some(enabled);
            effects.push(Effect::SetVoiceEnabled(enabled));
            let message = if enabled {
                "Voice engine enabled"
            } else {
                "Voice engine disabled"
            };
            self.add_log_message(message.to_string(), LogLevel::Info, now);
            assert(effects@ =~= seq![Effect::SetVoiceEnabled(enabled)]);
        }
        effects
    }

    /// Takes in, at `now`, how the write went that [`Effect::SaveConfig`]
    /// asked for: after a write the settings are clean, after a failure they
    /// stay as they are. Either way the log says so.
    pub fn config_saved(&mut self, outcome: Result<(), String>, now: u64)
        requires
            old(self).wf(),
        ensures
            final(self).wf(),
            final(self)@ == after_save(
                old(self)@,
                match outcome {
                    Ok(_) => None,
                    Err(cause) => Some(cause@),
                },
                now,
            ),
    {
        match outcome {
            Err(cause) => {
                let message = "Config save failed: ".to_string().concat(cause.as_str());
                self.add_log_message(message, LogLevel::Error, now);
            },
            Ok(_) => {
                self.config.dirty = false;
                self.add_log_message("Configuration saved".to_string(), LogLevel::Info, now);
            },
        }
    }

    /// Whether a debounced write of the settings is due at `now`: they are
    /// dirty and the last write is long enough ago. Nothing changes until the
    /// caller reports the write with
    /// [`SharedAppState::debounced_save_completed`].
    pub fn try_save_config(&mut self, now: u64) -> (write_due: bool)
        requires
            old(self).wf(),
        ensures
            final(self).wf(),
            final(self)@ == old(self)@,
            write_due == (old(self)@.config.dirty && !within_debounce(old(self)@.config, now)),
    {
        if self.config.should_save(now) {
            self.config.save_debounced(now)
        } else {
            false
        }
    }

    /// Records that the settings were written at `now` after
    /// [`SharedAppState::try_save_config`] found a write due.
    pub fn debounced_save_completed(&mut self, now: u64)
        requires
            old(self).wf(),
        ensures
            final(self).wf(),
            final(self)@ == (SharedAppStateView {
                config: Config { last_save: Some(now), dirty: false, ..old(self)@.config },
                ..old(self)@
            }),
    {
        self.config.save_completed(now);
    }

    /// The settings.
    pub fn get_config(&self) -> (config: Config)
        ensures
            config == self@.config,
    {
        self.config
    }

    /// The theme, with its colours.
    pub fn get_theme(&self) -> (theme: Theme)
        requires
            self.wf(),
        ensures
            theme.dark_mode == self@.dark_mode,
            theme.palette@ == palette_for(self@.dark_mode),
    {
        self.theme
    }

    /// The limit on the GPU that is in force, in percent.
    pub fn get_gpu_limit(&self) -> (limit: u8)
        ensures
            limit == self@.gpu_limit,
    {
        self.gpu_limit
    }

    /// The status of the voice engine: `ON` where one exists and is switched
    /// on, `OFF` otherwise.
    pub fn get_voice_status(&self) -> (status: String)
        ensures
            status@ == voice_status(self@.voice),
    {
        match self.voice {
            Some(true) => "ON".to_string(),
            _ => "OFF".to_string(),
        }
    }

    /// Whether the wizard is shown.
    pub fn is_wizard_open(&self) -> (open: bool)
        ensures
            open == self@.wizard.is_open,
    {
        self.wizard.is_open()
    }

    /// Whether the application was asked to quit.
    pub fn is_quit_requested(&self) -> (requested: bool)
        ensures
            requested == self@.quit_requested,
    {
        self.quit_requested
    }

    /// A copy of the last `count` entries of the log, oldest first.
    pub fn get_log_messages(&self, count: usize) -> (entries: Vec<LogEntry>)
        ensures
            log_views(entries@) == recent(self@.log, count as nat),
    {
        let start = self.log_messages.len().saturating_sub(count);
        let mut entries: Vec<LogEntry> = Vec::new();
        let mut i: usize = start;
        while i < self.log_messages.len()
            invariant
                start <= i <= self.log_messages@.len(),
                entries@.len() == i - start,
                forall|k: int| 0 <= k < i - start ==> entries@[k]@ == self.log_messages@[start + k]@,
            decreases self.log_messages@.len() - i,
        {
            entries.push(self.log_messages[i].clone());
            i += 1;
        }
        assert(log_views(entries@) =~= recent(self@.log, count as nat));
        entries
    }

    /// Whether the settings changed since they were last written.
    pub fn is_config_dirty(&self) -> (dirty: bool)
        ensures
            dirty == self@.config.dirty,
    {
        self.config.dirty
    }
}

/// The log never holds more than its limit, and an entry that is added is
/// always its newest.
pub proof fn law_log_is_bounded(log: Seq<LogEntryView>, entry: LogEntryView)
    requires
        log.len() <= MAX_LOG_ENTRIES,
    ensures
        logged(log, entry).len() <= MAX_LOG_ENTRIES,
        logged(log, entry).len() >= 1,
        logged(log, entry).last() == entry,
        log.len() < MAX_LOG_ENTRIES ==> logged(log, entry) == log.push(entry),
        log.len() == MAX_LOG_ENTRIES ==> logged(log, entry) == log.drop_first().push(entry),
{
    if log.len() == MAX_LOG_ENTRIES {
        assert(log.push(entry).drop_first() =~= log.drop_first().push(entry));
    }
}

/// Whatever event is handled: the settings change only together with being
/// marked dirty, the GPU limit in force is always one that the controller
/// supports if it was before, and a request to quit is never taken back.
pub proof fn law_events_keep_state_sound(v: SharedAppStateView, event: AppEventView, now: u64)
    ensures
        ({
            let w = after_event(v, event, now);
            &&& (w.config.gpu != v.config.gpu || w.config.theme != v.config.theme || w.config.voice
                != v.config.voice) ==> w.config.dirty
            &&& v.config.dirty ==> w.config.dirty
            &&& is_limit_step(v.gpu_limit) ==> is_limit_step(w.gpu_limit)
            &&& v.quit_requested ==> w.quit_requested
            &&& w.config.was_fresh == v.config.was_fresh
            &&& w.config.last_save == v.config.last_save
        }),
{
}

} // verus!
