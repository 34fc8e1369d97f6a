//! The state of the text interface and what each key does to it.
//!
//! Drawing, reading keys and writing the settings file are the caller's work.
//! The caller hands in each key as a [`KeyEvent`] with the reading of its
//! clock in milliseconds, and does what the returned [`InputAction`] asks.

use vstd::prelude::*;
use crate::engine::ui::palette::{dark_palette, light_palette, toggled, Palette, Theme};
use crate::text::{parse_u64, parsed_u64, same_text};

verus! {

/// What the text interface shows.
#[derive(Clone, Copy, Debug, PartialEq, Eq, Structural)]
pub enum AppMode {
    Wizard,
    Runtime,
    Settings,
    Help,
}

/// A step of the short wizard of the text interface.
#[derive(Clone, Copy, Debug, PartialEq, Eq, Structural)]
pub enum WizardStep {
    Welcome,
    GpuConfig,
    Complete,
}

/// The least share of the GPU memory that can be set, in percent.
pub const MIN_GPU_LIMIT: u32 = 10;

/// The largest share of the GPU memory that can be set, in percent.
pub const MAX_GPU_LIMIT: u32 = 100;

/// By how much a key changes the share of the GPU memory, in percent.
pub const GPU_LIMIT_STEP: u32 = 5;

/// The shortest debounce time that the environment may ask for, in
/// milliseconds.
pub const MIN_DEBOUNCE_MS: u64 = 50;

/// The longest debounce time that the environment may ask for, in
/// milliseconds.
pub const MAX_DEBOUNCE_MS: u64 = 10000;

/// The settings of the text interface.
#[derive(Debug)]
pub struct Config {
    /// How much of the GPU memory may be used, in percent.
    pub gpu_limit: u32,
    pub theme: String,
    /// The least time between a change and its saving, in milliseconds.
    pub debounce_ms: u64,
}

/// Mathematical value of a [`Config`].
pub struct ConfigView {
    pub gpu_limit: u32,
    pub theme: Seq<char>,
    pub debounce_ms: u64,
}

impl View for Config {
    type V = ConfigView;

    open spec fn view(&self) -> ConfigView {
        ConfigView { gpu_limit: self.gpu_limit, theme: self.theme@, debounce_ms: self.debounce_ms }
    }
}

impl Clone for Config {
    fn clone(&self) -> (copy: Self)
        ensures
            copy@ == self@,
    {
        Config {
            gpu_limit: self.gpu_limit,
            theme: self.theme.clone(),
            debounce_ms: self.debounce_ms,
        }
    }
}

/// The settings of a first run: four fifths of the GPU memory, the dark
/// theme, half a second of debounce.
pub open spec fn default_config() -> ConfigView {
    ConfigView { gpu_limit: 80, theme: "dark"@, debounce_ms: 500 }
}

impl Default for Config {
    fn default() -> (config: Self)
        ensures
            config@ == default_config(),
    {
        Config { gpu_limit: 80, theme: "dark".to_string(), debounce_ms: 500 }
    }
}

/// A key, as far as the text interface tells keys apart.
#[derive(Clone, Copy, Debug, PartialEq, Eq, Structural)]
pub enum KeyCode {
    Char(char),
    Enter,
    Esc,
    Up,
    Down,
    Other,
}

/// A key press.
#[derive(Clone, Copy, Debug, PartialEq, Eq, Structural)]
pub struct KeyEvent {
    pub code: KeyCode,
    /// Whether the control key was held.
    pub control: bool,
}

/// What the caller has to do after a key was handled.
#[derive(Clone, Copy, Debug, PartialEq, Eq, Structural)]
pub enum InputAction {
    Nothing,
    /// Write the settings; after a write report with
    /// [`TuiApp::wizard_saved`], after a failure stop with the error.
    SaveAndFinishWizard,
}

/// How the screen is divided for a terminal of some height.
#[derive(Clone, Copy, Debug, PartialEq, Eq, Structural)]
pub struct ScreenLayout {
    /// The height of the header, in rows.
    pub header_height: u16,
    /// Whether the header is drawn without emphasis, to save room.
    pub compact_header: bool,
    /// Whether the footer is drawn.
    pub show_footer: bool,
}

/// The layout for a terminal of `height` rows: the footer needs 18 rows, the
/// full header 12.
pub open spec fn layout_for(height: u16) -> ScreenLayout {
    ScreenLayout {
        header_height: if height < 12 {
            1
        } else {
            3
        },
        compact_header: height < 12,
        show_footer: height >= 18,
    }
}

/// Mathematical value of a [`TuiApp`].
pub struct TuiAppView {
    pub mode: AppMode,
    pub wizard_step: WizardStep,
    pub show_help: bool,
    pub confirm_quit_in_wizard: bool,
    pub config: ConfigView,
    pub palette: Palette,
    pub debounce_ms: u64,
    pub last_change: Option<u64>,
    pub running: bool,
}

/// The share of the GPU memory one step above `limit`, within what can be
/// set.
pub open spec fn limit_raised(limit: u32) -> u32 {
    if limit + GPU_LIMIT_STEP >= MAX_GPU_LIMIT {
        MAX_GPU_LIMIT
    } else {
        (limit + GPU_LIMIT_STEP) as u32
    }
}

/// The share of the GPU memory one step below `limit`, within what can be
/// set.
pub open spec fn limit_lowered(limit: u32) -> u32 {
    if limit - GPU_LIMIT_STEP <= MIN_GPU_LIMIT {
        MIN_GPU_LIMIT
    } else {
        (limit - GPU_LIMIT_STEP) as u32
    }
}

/// The name under which the settings store the theme of `theme`.
pub open spec fn theme_setting(theme: Theme) -> Seq<char> {
    match theme {
        Theme::Dark => "dark"@,
        Theme::Light => "light"@,
    }
}

/// The colours for the theme that the settings name: the light ones for
/// `light`, the dark ones for everything else.
pub open spec fn palette_named(theme: Seq<char>) -> Palette {
    if theme == "light"@ {
        light_palette()
    } else {
        dark_palette()
    }
}

/// The debounce time that the environment asks for: the number that its
/// setting denotes, if it is set and denotes one.
pub open spec fn requested_debounce(setting: Option<Seq<char>>) -> Option<u64> {
    match setting {
        Some(text) => parsed_u64(text),
        None => None,
    }
}

/// The debounce time in force: what the environment asks for where that is
/// within bounds, what the settings say otherwise.
pub open spec fn debounce_in_force(requested: Option<u64>, configured: u64) -> u64 {
    match requested {
        Some(ms) if MIN_DEBOUNCE_MS <= ms && ms <= MAX_DEBOUNCE_MS => ms,
        _ => configured,
    }
}

/// The interface as it starts: with the stored settings, or the default ones
/// where none could be read; in the wizard exactly if there is no settings
/// file yet.
pub open spec fn initial_app(
    stored: Option<ConfigView>,
    config_exists: bool,
    debounce_setting: Option<Seq<char>>,
) -> TuiAppView {
    let config = match stored {
        Some(config) => config,
        None => default_config(),
    };
    TuiAppView {
        mode: if config_exists {
            AppMode::Runtime
        } else {
            AppMode::Wizard
        },
        wizard_step: WizardStep::Welcome,
        show_help: false,
        confirm_quit_in_wizard: false,
        config,
        palette: palette_named(config.theme),
        debounce_ms: debounce_in_force(requested_debounce(debounce_setting), config.debounce_ms),
        last_change: None,
        running: true,
    }
}

/// The interface after a key in the wizard.
pub open spec fn after_wizard_key(v: TuiAppView, key: KeyEvent, now: u64) -> TuiAppView {
    match key.code {
        KeyCode::Char('q') => TuiAppView { confirm_quit_in_wizard: true, ..v },
        KeyCode::Enter => match v.wizard_step {
            WizardStep::Welcome => TuiAppView { wizard_step: WizardStep::GpuConfig, ..v },
            WizardStep::GpuConfig => TuiAppView { wizard_step: WizardStep::Complete, ..v },
            WizardStep::Complete => v,
        },
        KeyCode::Char('b') => match v.wizard_step {
            WizardStep::Welcome => v,
            WizardStep::GpuConfig => TuiAppView { wizard_step: WizardStep::Welcome, ..v },
            WizardStep::Complete => TuiAppView { wizard_step: WizardStep::GpuConfig, ..v },
        },
        KeyCode::Up => if v.wizard_step == WizardStep::GpuConfig {
            TuiAppView {
                config: ConfigView { gpu_limit: limit_raised(v.config.gpu_limit), ..v.config },
                last_change: Some(now),
                ..v
            }
        } else {
            v
        },
        KeyCode::Down => if v.wizard_step == WizardStep::GpuConfig {
            TuiAppView {
                config: ConfigView { gpu_limit: limit_lowered(v.config.gpu_limit), ..v.config },
                last_change: Some(now),
                ..v
            }
        } else {
            v
        },
        _ => v,
    }
}

/// What the caller has to do after a key in the wizard: leaving the last
/// step asks for the settings to be written.
pub open spec fn wizard_action(v: TuiAppView, key: KeyEvent) -> InputAction {
    if key.code == KeyCode::Enter && v.wizard_step == WizardStep::Complete {
        InputAction::SaveAndFinishWizard
    } else {
        InputAction::Nothing
    }
}

/// The interface after a key at run time.
pub open spec fn after_runtime_key(v: TuiAppView, key: KeyEvent) -> TuiAppView {
    match key.code {
        KeyCode::Char('q') => TuiAppView { running: false, ..v },
        KeyCode::Char('s') => TuiAppView { mode: AppMode::Settings, ..v },
        _ => v,
    }
}

/// The interface after the share of the GPU memory was set to `limit` in the
/// settings: a change is noted only where the share is another than before.
pub open spec fn with_limit(v: TuiAppView, limit: u32, now: u64) -> TuiAppView {
    if limit != v.config.gpu_limit {
        TuiAppView {
            config: ConfigView { gpu_limit: limit, ..v.config },
            last_change: Some(now),
            ..v
        }
    } else {
        v
    }
}

/// The interface after a key in the settings.
pub open spec fn after_settings_key(v: TuiAppView, key: KeyEvent, now: u64) -> TuiAppView {
    if key.control && key.code == KeyCode::Char('c') {
        TuiAppView { running: false, ..v }
    } else {
        match key.code {
            KeyCode::Esc => TuiAppView { mode: AppMode::Runtime, ..v },
            KeyCode::Char('q') => TuiAppView { mode: AppMode::Runtime, ..v },
            KeyCode::Up => with_limit(v, limit_raised(v.config.gpu_limit), now),
            KeyCode::Down => with_limit(v, limit_lowered(v.config.gpu_limit), now),
            KeyCode::Char('t') => TuiAppView {
                palette: toggled(v.palette.theme),
                config: ConfigView {
                    theme: theme_setting(toggled(v.palette.theme).theme),
                    ..v.config
                },
                last_change: Some(now),
                ..v
            },
            _ => v,
        }
    }
}

/// The interface after a key, whatever it shows: the help and the question
/// whether to quit take their keys first, then the mode takes the rest.
pub open spec fn after_key(v: TuiAppView, key: KeyEvent, now: u64) -> TuiAppView {
    if key.code == KeyCode::Char('?') && !v.confirm_quit_in_wizard {
        TuiAppView { show_help: !v.show_help, ..v }
    } else if key.code == KeyCode::Esc {
        if v.show_help {
            TuiAppView { show_help: false, ..v }
        } else {
            TuiAppView { confirm_quit_in_wizard: false, ..v }
        }
    } else if v.confirm_quit_in_wizard {
        match key.code {
            KeyCode::Char('y') => TuiAppView { running: false, ..v },
            KeyCode::Char('Y') => TuiAppView { running: false, ..v },
            KeyCode::Char('n') => TuiAppView { confirm_quit_in_wizard: false, ..v },
            KeyCode::Char('N') => TuiAppView { confirm_quit_in_wizard: false, ..v },
            _ => v,
        }
    } else if v.show_help {
        v
    } else {
        match v.mode {
            AppMode::Wizard => after_wizard_key(v, key, now),
            AppMode::Runtime => after_runtime_key(v, key),
            AppMode::Settings => after_settings_key(v, key, now),
            AppMode::Help => v,
        }
    }
}

/// Whether a key reaches the mode that the interface is in.
pub open spec fn reaches_mode(v: TuiAppView, key: KeyEvent) -> bool {
    &&& !(key.code == KeyCode::Char('?') && !v.confirm_quit_in_wizard)
    &&& key.code != KeyCode::Esc
    &&& !v.confirm_quit_in_wizard
    &&& !v.show_help
}

/// What the caller has to do after a key.
pub open spec fn action_of(v: TuiAppView, key: KeyEvent) -> InputAction {
    if reaches_mode(v, key) && v.mode == AppMode::Wizard {
        wizard_action(v, key)
    } else {
        InputAction::Nothing
    }
}

/// Whether the settings are to be written at `now`: there is a change, and
/// it is at least the debounce time old.
pub open spec fn save_due(v: TuiAppView, now: u64) -> bool {
    v.last_change matches Some(changed) && now >= changed && now - changed >= v.debounce_ms
}

/// The state of the text interface.
#[derive(Debug)]
pub struct TuiApp {
    pub mode: AppMode,
    pub wizard_step: WizardStep,
    pub show_help: bool,
    pub confirm_quit_in_wizard: bool,
    pub config: Config,
    pub palette: Palette,
    pub debounce_ms: u64,
    /// When the settings last changed without being written since.
    pub last_change: Option<u64>,
    pub running: bool,
}

impl View for TuiApp {
    type V = TuiAppView;

    open spec fn view(&self) -> TuiAppView {
        TuiAppView {
            mode: self.mode,
            wizard_step: self.wizard_step,
            show_help: self.show_help,
            confirm_quit_in_wizard: self.confirm_quit_in_wizard,
            config: self.config@,
            palette: self.palette,
            debounce_ms: self.debounce_ms,
            last_change: self.last_change,
            running: self.running,
        }
    }
}

impl TuiApp {
    /// The interface as it starts, given the stored settings where they could
    /// be read, whether there is a settings file, and what the environment
    /// sets as the debounce time, if it sets any.
    pub fn new(stored: Option<Config>, config_exists: bool, debounce_setting: Option<&str>) -> (app:
        Self)
        ensures
            app@ == initial_app(
                match stored {
                    Some(config) => Some(config@),
                    None => None,
                },
                config_exists,
                match debounce_setting {
                    Some(text) => Some(text@),
                    None => None,
                },
            ),
    {
        let config = match stored {
            Some(config) => config,
            None => Config::default(),
        };
        let requested = match debounce_setting {
            Some(text) => parse_u64(text),
            None => None,
        };
        let debounce_ms = match requested {
            Some(ms) if MIN_DEBOUNCE_MS <= ms && ms <= MAX_DEBOUNCE_MS => ms,
            _ => config.debounce_ms,
        };
        let palette = if same_text(config.theme.as_str(), "light") {
            Palette::light()
        } else {
            Palette::dark()
        };
        let mode = if config_exists {
            AppMode::Runtime
        } else {
            AppMode::Wizard
        };
        TuiApp {
            mode,
            wizard_step: WizardStep::Welcome,
            show_help: false,
            confirm_quit_in_wizard: false,
            config,
            palette,
            debounce_ms,
            last_change: None,
            running: true,
        }
    }

    /// How the screen is divided for a terminal of `height` rows.
    pub fn layout(height: u16) -> (layout: ScreenLayout)
        ensures
            layout == layout_for(height),
    {
        let compact_header = height < 12;
        ScreenLayout {
            header_height: if compact_header {
                1
            } else {
                3
            },
            compact_header,
            show_footer: height >= 18,
        }
    }

    /// Takes in a key at `now` and returns what the caller has to do for it.
    /// The mode [`AppMode::Help`] is never entered and takes no keys.
    pub fn handle_input(&mut self, key: KeyEvent, now: u64) -> (action: InputAction)
        ensures
            final(self)@ == after_key(old(self)@, key, now),
            action == action_of(old(self)@, key),
    {
        if key.code == KeyCode::Char('?') && !self.confirm_quit_in_wizard {
            self.show_help = !self.show_help;
            return InputAction::Nothing;
        }
        if key.code == KeyCode::Esc {
            if self.show_help {
                self.show_help = false;
            } else if self.confirm_quit_in_wizard {
                self.confirm_quit_in_wizard = false;
            }
            return InputAction::Nothing;
        }
        if self.confirm_quit_in_wizard {
            match key.code {
                KeyCode::Char('y') | KeyCode::Char('Y') => {
                    self.running = false;
                },
                KeyCode::Char('n') | KeyCode::Char('N') => {
                    self.confirm_quit_in_wizard = false;
                },
                _ => {},
            }
            return InputAction::Nothing;
        }
        if self.show_help {
            return InputAction::Nothing;
        }
        match self.mode {
            AppMode::Wizard => self.handle_wizard_input(key, now),
            AppMode::Runtime => {
                self.handle_runtime_input(key);
                InputAction::Nothing
            },
            AppMode::Settings => {
                self.handle_settings_input(key, now);
                InputAction::Nothing
            },
            AppMode::Help => InputAction::Nothing,
        }
    }

    /// Takes in a key in the wizard.
    pub fn handle_wizard_input(&mut self, key: KeyEvent, now: u64) -> (action: InputAction)
        ensures
            final(self)@ == after_wizard_key(old(self)@, key, now),
            action == wizard_action(old(self)@, key),
    {
        match key.code {
            KeyCode::Char('q') => {
                self.confirm_quit_in_wizard = true;
            },
            KeyCode::Enter => {
                match self.wizard_step {
                    WizardStep::Welcome => {
                        self.wizard_step = WizardStep::GpuConfig;
                    },
                    WizardStep::GpuConfig => {
                        self.wizard_step = WizardStep::Complete;
                    },
                    WizardStep::Complete => {
                        return InputAction::SaveAndFinishWizard;
                    },
                }
            },
            KeyCode::Char('b') => {
                match self.wizard_step {
                    WizardStep::GpuConfig => {
                        self.wizard_step = WizardStep::Welcome;
                    },
                    WizardStep::Complete => {
                        self.wizard_step = WizardStep::GpuConfig;
                    },
                    _ => {},
                }
            },
            KeyCode::Up => {
                if self.wizard_step == WizardStep::GpuConfig {
                    self.config.gpu_limit = raise_limit(self.config.gpu_limit);
                    self.mark_changed(now);
                }
            },
            KeyCode::Down => {
                if self.wizard_step == WizardStep::GpuConfig {
                    self.config.gpu_limit = lower_limit(self.config.gpu_limit);
                    self.mark_changed(now);
                }
            },
            _ => {},
        }
        InputAction::Nothing
    }

    /// Leaves the wizard for run time, after the settings were written.
    pub fn wizard_saved(&mut self)
        ensures
            final(self)@ == (TuiAppView { mode: AppMode::Runtime, ..old(self)@ }),
    {
        self.mode = AppMode::Runtime;
    }

    /// Takes in a key at run time.
    pub fn handle_runtime_input(&mut self, key: KeyEvent)
        ensures
            final(self)@ == after_runtime_key(old(self)@, key),
    {
        match key.code {
            KeyCode::Char('q') => {
                self.running = false;
            },
            KeyCode::Char('s') => {
                self.mode = AppMode::Settings;
            },
            _ => {},
        }
    }

    /// Takes in a key in the settings.
    pub fn handle_settings_input(&mut self, key: KeyEvent, now: u64)
        ensures
            final(self)@ == after_settings_key(old(self)@, key, now),
    {
        if key.control && key.code == KeyCode::Char('c') {
            self.running = false;
            return ;
        }
        match key.code {
            KeyCode::Esc | KeyCode::Char('q') => {
                self.mode = AppMode::Runtime;
            },
            KeyCode::Up => {
                let old_limit = self.config.gpu_limit;
                self.config.gpu_limit = raise_limit(self.config.gpu_limit);
                if old_limit != self.config.gpu_limit {
                    self.mark_changed(now);
                }
            },
            KeyCode::Down => {
                let old_limit = self.config.gpu_limit;
                self.config.gpu_limit = lower_limit(self.config.gpu_limit);
                if old_limit != self.config.gpu_limit {
                    self.mark_changed(now);
                }
            },
            KeyCode::Char('t') => {
                self.palette.toggle_theme();
                self.config.theme = match self.palette.theme {
                    Theme::Dark => "dark".to_string(),
                    Theme::Light => "light".to_string(),
                };
                self.mark_changed(now);
            },
            _ => {},
        }
    }

    /// Notes that the settings changed at `now`.
    pub fn mark_changed(&mut self, now: u64)
        ensures
            final(self)@ == (TuiAppView { last_change: Some(now), ..old(self)@ }),
    {
        self.last_change = Some(now);
    }

    /// Whether the settings are to be written at `now`.
    pub fn should_save(&self, now: u64) -> (due: bool)
        ensures
            due == save_due(self@, now),
    {
        match self.last_change {
            Some(changed) => now >= changed && now - changed >= self.debounce_ms,
            None => false,
        }
    }

    /// Notes that the settings were written.
    pub fn config_saved(&mut self)
        ensures
            final(self)@ == (TuiAppView { last_change: None, ..old(self)@ }),
    {
        self.last_change = None;
    }
}

/// The share of the GPU memory one step above `limit`.
pub fn raise_limit(limit: u32) -> (raised: u32)
    ensures
        raised == limit_raised(limit),
{
    let raised = limit.saturating_add(GPU_LIMIT_STEP);
    if raised >= MAX_GPU_LIMIT {
        MAX_GPU_LIMIT
    } else {
        raised
    }
}

/// The share of the GPU memory one step below `limit`.
pub fn lower_limit(limit: u32) -> (lowered: u32)
    ensures
        lowered == limit_lowered(limit),
{
    let lowered = limit.saturating_sub(GPU_LIMIT_STEP);
    if lowered <= MIN_GPU_LIMIT {
        MIN_GPU_LIMIT
    } else {
        lowered
    }
}

/// Whatever key is pressed in the wizard or in the settings, the share of the
/// GPU memory stays within what can be set once it is there, and a key that
/// changes the settings is noted as a change.
pub proof fn law_limit_stays_in_bounds(v: TuiAppView, key: KeyEvent, now: u64)
    requires
        MIN_GPU_LIMIT <= v.config.gpu_limit <= MAX_GPU_LIMIT,
    ensures
        ({
            let w = after_key(v, key, now);
            &&& MIN_GPU_LIMIT <= w.config.gpu_limit <= MAX_GPU_LIMIT
            &&& w.config != v.config ==> w.last_change == Some(now)
            &&& w.config.debounce_ms == v.config.debounce_ms
        }),
{
}

/// Raising and lowering move within bounds by one step and stop at the ends.
pub proof fn law_limit_steps(limit: u32)
    ensures
        MIN_GPU_LIMIT <= limit_lowered(limit) <= limit || limit < MIN_GPU_LIMIT,
        limit <= limit_raised(limit) <= MAX_GPU_LIMIT || limit > MAX_GPU_LIMIT,
        limit_raised(MAX_GPU_LIMIT) == MAX_GPU_LIMIT,
        limit_lowered(MIN_GPU_LIMIT) == MIN_GPU_LIMIT,
        MIN_GPU_LIMIT + GPU_LIMIT_STEP <= limit <= MAX_GPU_LIMIT ==> limit_raised(
            limit_lowered(limit),
        ) == limit,
{
}

} // verus!
