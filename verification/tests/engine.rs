use zenterm::engine::command_registry::{Command, CommandCategory, CommandRegistry};
use zenterm::engine::config::{Config, GpuConfig, StoredConfig, ThemeConfig, VoiceConfig};
use zenterm::engine::event_bus::AppEvent;
use zenterm::engine::gpu::{apply_limit, check_limit, is_supported_limit};
use zenterm::engine::shared_state::{Effect, LogLevel, SharedAppState};
use zenterm::engine::theme::{Theme, ThemePalette};
use zenterm::engine::ui::app::{
    lower_limit, raise_limit, AppMode, Config as TuiConfig, InputAction, KeyCode, KeyEvent,
    ScreenLayout, TuiApp, WizardStep as TuiWizardStep,
};
use zenterm::engine::ui::palette::{Palette, Theme as TuiTheme};
use zenterm::engine::voice_mock::VoiceMock;
use zenterm::engine::wizard::{Wizard, WizardStep};
use zenterm::engine::hello;

#[test]
fn smoke() {
    assert_eq!(hello(), "engine ok");
}

#[test]
fn test_command_registry_creation() {
    let registry = CommandRegistry::new();

    // Should have default commands registered
    assert!(!registry.all_commands().is_empty());

    // Check for some expected commands
    assert!(registry.get("gpu.limit.25").is_some());
    assert!(registry.get("theme.toggle").is_some());
    assert!(registry.get("voice.toggle").is_some());
    assert!(registry.get("wizard.open").is_some());
    assert!(registry.get("system.quit").is_some());
}

#[test]
fn test_command_registration() {
    let mut registry = CommandRegistry::new();
    let initial_count = registry.all_commands().len();

    let custom_command = Command {
        name: "Test Command".to_string(),
        description: "A test command".to_string(),
        category: CommandCategory::System,
    };

    registry.register("test.command".to_string(), custom_command);

    assert_eq!(registry.all_commands().len(), initial_count + 1);
    assert!(registry.get("test.command").is_some());
}

#[test]
fn test_commands_by_category() {
    let registry = CommandRegistry::new();

    let gpu_commands = registry.commands_by_category(&CommandCategory::Gpu);
    assert!(!gpu_commands.is_empty());

    // Verify all returned commands are actually GPU category
    for (_, command) in gpu_commands {
        assert_eq!(command.category, CommandCategory::Gpu);
    }
}

#[test]
fn test_command_execution() {
    let registry = CommandRegistry::new();

    // Test executing existing command
    assert!(registry.execute("gpu.limit.25").is_ok());

    // Test executing non-existent command
    assert!(registry.execute("nonexistent.command").is_err());
}

#[test]
fn test_default_commands_in_order() {
    let registry = CommandRegistry::new();
    let listing = registry.all_commands();
    let ids: Vec<&str> = listing.iter().map(|(id, _)| id.as_str()).collect();
    assert_eq!(
        ids,
        vec![
            "gpu.limit.25",
            "gpu.limit.50",
            "gpu.limit.75",
            "gpu.limit.100",
            "theme.toggle",
            "voice.toggle",
            "wizard.open",
            "system.quit",
        ]
    );
    let quit = registry.get("system.quit").unwrap();
    assert_eq!(quit.name, "Quit Application");
    assert_eq!(quit.description, "Exit ZenTerm");
    assert_eq!(quit.category, CommandCategory::System);
    let full = registry.get("gpu.limit.100").unwrap();
    assert_eq!(full.name, "Set GPU Limit to 100%");
    assert_eq!(full.description, "Use full GPU capacity");
    assert_eq!(registry.commands_by_category(&CommandCategory::Gpu).len(), 4);
    assert_eq!(registry.commands_by_category(&CommandCategory::Theme).len(), 1);
    assert_eq!(registry.commands_by_category(&CommandCategory::Voice).len(), 1);
    assert_eq!(registry.commands_by_category(&CommandCategory::Wizard).len(), 1);
    assert_eq!(registry.commands_by_category(&CommandCategory::System).len(), 1);
}

#[test]
fn test_register_replaces_in_place() {
    let mut registry = CommandRegistry::new();
    registry.register(
        "gpu.limit.50".to_string(),
        Command {
            name: "Half".to_string(),
            description: "Half of the GPU".to_string(),
            category: CommandCategory::System,
        },
    );
    let listing = registry.all_commands();
    assert_eq!(listing.len(), 8);
    assert_eq!(listing[1].0, "gpu.limit.50");
    assert_eq!(listing[1].1.name, "Half");
    assert_eq!(registry.get("gpu.limit.50").unwrap().category, CommandCategory::System);
    assert_eq!(registry.commands_by_category(&CommandCategory::Gpu).len(), 3);
    assert!(registry.get("gpu.limit.5").is_none());
    let copy = registry.get("gpu.limit.50").unwrap().clone();
    assert_eq!(copy.description, "Half of the GPU");
}

#[test]
fn test_execute_names_the_missing_command() {
    let registry = CommandRegistry::new();
    assert_eq!(
        registry.execute("nonexistent.command"),
        Err("Command 'nonexistent.command' not found".to_string())
    );
    assert_eq!(registry.execute(""), Err("Command '' not found".to_string()));
    assert_eq!(registry.execute("wizard.open"), Ok(()));
}

#[test]
fn test_default_config() {
    let config = Config::default();
    assert_eq!(config.gpu.limit_percentage, 75);
    assert!(config.theme.dark_mode);
    assert!(!config.voice.enabled);
    assert!(!config.was_fresh);
    assert!(!config.dirty);
}

#[test]
fn test_first_run_detection() {
    for stored in [StoredConfig::Missing, StoredConfig::Unreadable, StoredConfig::Corrupt] {
        let (config, was_fresh) = Config::load_or_default(stored);
        assert_eq!(config.was_fresh, was_fresh);
        assert!(was_fresh);
        assert_eq!(config, Config { was_fresh: true, ..Config::default() });
    }
    let on_disk = Config {
        gpu: GpuConfig { limit_percentage: 50 },
        theme: ThemeConfig { dark_mode: false },
        voice: VoiceConfig { enabled: true },
        was_fresh: true,
        last_save: None,
        dirty: false,
    };
    let (config, was_fresh) = Config::load_or_default(StoredConfig::Loaded(on_disk));
    assert_eq!(config.was_fresh, was_fresh);
    assert!(!was_fresh);
    assert_eq!(config, Config { was_fresh: false, ..on_disk });
}

#[test]
fn test_save_is_debounced() {
    let mut config = Config::default();
    config.mark_dirty();
    assert!(config.dirty);
    // Never saved: a write is due at once.
    assert!(config.should_save(10));
    assert!(config.save_debounced(10));
    assert!(config.dirty);
    config.save_completed(10);
    assert_eq!(config.last_save, Some(10));
    assert!(!config.dirty);
    assert!(!config.should_save(10_000));

    // A change shortly after the write waits.
    assert!(!config.save_debounced(509));
    assert!(config.dirty);
    assert_eq!(config.last_save, Some(10));
    assert!(!config.should_save(509));
    // At the debounce time the write is due.
    assert!(config.should_save(510));
    assert!(config.save_debounced(510));
    config.save_completed(510);
    assert_eq!(config, Config { last_save: Some(510), ..Config::default() });
    // A clock that reads less than before counts as no time passed.
    assert!(!config.save_debounced(3));
    assert!(!config.should_save(3));
}

#[test]
fn test_gpu_limit_is_capped() {
    assert_eq!(apply_limit(0), 0);
    assert_eq!(apply_limit(75), 75);
    assert_eq!(apply_limit(100), 100);
    assert_eq!(apply_limit(101), 100);
    assert_eq!(apply_limit(255), 100);
    for limit in [25u8, 50, 75, 100] {
        assert!(is_supported_limit(limit));
    }
    for limit in [0u8, 30, 99, 150] {
        assert!(!is_supported_limit(limit));
    }
}

#[test]
fn test_theme_creation() {
    let dark_theme = Theme::new(true);
    assert!(dark_theme.dark_mode);
    assert_eq!(dark_theme.name(), "Dark");

    let light_theme = Theme::new(false);
    assert!(!light_theme.dark_mode);
    assert_eq!(light_theme.name(), "Light");
}

#[test]
fn test_theme_toggle() {
    let mut theme = Theme::new(true);
    assert!(theme.dark_mode);

    theme.toggle();
    assert!(!theme.dark_mode);
    assert_eq!(theme.name(), "Light");

    theme.toggle();
    assert!(theme.dark_mode);
    assert_eq!(theme.name(), "Dark");
}

#[test]
fn test_theme_palette_colors() {
    let dark_palette = ThemePalette::dark();
    let light_palette = ThemePalette::light();

    // Dark and light palettes should have different colors
    assert_ne!(
        dark_palette.background_primary,
        light_palette.background_primary
    );
    assert_ne!(dark_palette.text_primary, light_palette.text_primary);

    // But some colors like success/warning/error should be the same
    assert_eq!(dark_palette.success, light_palette.success);
    assert_eq!(dark_palette.warning, light_palette.warning);
    assert_eq!(dark_palette.error, light_palette.error);
}

#[test]
fn test_rgb_conversions() {
    let rgb = [255, 128, 64];

    // Test hex conversion
    assert_eq!(ThemePalette::rgb_to_hex(rgb), "#ff8040");
}

#[test]
fn test_rgb_to_hex_pads_and_uses_lower_case() {
    assert_eq!(ThemePalette::rgb_to_hex([0, 0, 0]), "#000000");
    assert_eq!(ThemePalette::rgb_to_hex([1, 10, 16]), "#010a10");
    assert_eq!(ThemePalette::rgb_to_hex([171, 205, 239]), "#abcdef");
    assert_eq!(ThemePalette::rgb_to_hex(ThemePalette::dark().accent_primary), "#0dcaf0");
    assert_eq!(ThemePalette::rgb_to_hex(ThemePalette::light().selection), "#0d6efd");
}

#[test]
fn test_theme_toggle_restores_palette() {
    let mut theme = Theme::new(false);
    assert_eq!(theme.palette, ThemePalette::light());
    theme.palette.border = [1, 2, 3];
    theme.toggle();
    assert_eq!(theme.palette, ThemePalette::dark());
    assert_eq!(theme.palette.border, [73, 80, 87]);
    assert_eq!(theme.palette.selection, [13, 202, 240]);
}

#[test]
fn test_default_theme() {
    let theme = Theme::default();
    assert!(theme.dark_mode);
    assert_eq!(theme.name(), "Dark");
}

#[test]
fn test_config_default() {
    let config = TuiConfig::default();
    assert_eq!(config.gpu_limit, 80);
    assert_eq!(config.theme, "dark");
    assert_eq!(config.debounce_ms, 500);
}

#[test]
fn test_palette_theme_toggle() {
    let mut palette = Palette::dark();
    assert_eq!(palette.theme, TuiTheme::Dark);

    palette.toggle_theme();
    assert_eq!(palette.theme, TuiTheme::Light);

    palette.toggle_theme();
    assert_eq!(palette.theme, TuiTheme::Dark);
}

#[test]
fn test_palette_colours() {
    assert_eq!(Palette::default(), Palette::dark());
    let mut palette = Palette::light();
    assert_eq!(palette.background, (255, 255, 255));
    assert_eq!(palette.text_primary, (17, 24, 39));
    palette.toggle_theme();
    assert_eq!(palette.background, (17, 24, 39));
    assert_eq!(palette.border, (55, 65, 81));
    assert_eq!(palette.accent, Palette::light().accent);
}

#[test]
fn test_wizard_creation() {
    let wizard = Wizard::new();
    assert!(!wizard.is_open());
    assert_eq!(wizard.current_step(), WizardStep::Welcome);
    assert!(wizard.completed_steps().is_empty());
}

#[test]
fn test_wizard_open_close() {
    let mut wizard = Wizard::new();

    wizard.open();
    assert!(wizard.is_open());
    assert_eq!(wizard.current_step(), WizardStep::Welcome);

    wizard.close();
    assert!(!wizard.is_open());
}

#[test]
fn test_wizard_step_progression() {
    let mut wizard = Wizard::new();
    wizard.open();

    // Start at Welcome
    assert_eq!(wizard.current_step(), WizardStep::Welcome);
    assert!(!wizard.can_go_previous());
    assert!(wizard.can_go_next());

    // Go to GPU Configuration
    assert!(wizard.next_step());
    assert_eq!(wizard.current_step(), WizardStep::GpuConfiguration);
    assert!(wizard.can_go_previous());
    assert!(wizard.can_go_next());

    // Go to Theme Selection
    assert!(wizard.next_step());
    assert_eq!(wizard.current_step(), WizardStep::ThemeSelection);

    // Go to Voice Setup
    assert!(wizard.next_step());
    assert_eq!(wizard.current_step(), WizardStep::VoiceSetup);

    // Go to Complete
    assert!(wizard.next_step());
    assert_eq!(wizard.current_step(), WizardStep::Complete);
    assert!(!wizard.can_go_next());

    // Next step from Complete should close wizard
    assert!(!wizard.next_step());
    assert!(!wizard.is_open());
}

#[test]
fn test_wizard_backward_progression() {
    let mut wizard = Wizard::new();
    wizard.open();

    // Go forward to Theme Selection
    wizard.next_step(); // GPU
    wizard.next_step(); // Theme
    assert_eq!(wizard.current_step(), WizardStep::ThemeSelection);

    // Go back to GPU Configuration
    assert!(wizard.previous_step());
    assert_eq!(wizard.current_step(), WizardStep::GpuConfiguration);

    // Go back to Welcome
    assert!(wizard.previous_step());
    assert_eq!(wizard.current_step(), WizardStep::Welcome);

    // Can't go back further
    assert!(!wizard.previous_step());
    assert_eq!(wizard.current_step(), WizardStep::Welcome);
}

#[test]
fn test_wizard_step_data() {
    let wizard = Wizard::new();

    let welcome_data = wizard.get_step_data(&WizardStep::Welcome);
    assert_eq!(welcome_data.title, "Welcome to ZenTerm");
    assert!(!welcome_data.can_skip);

    let gpu_data = wizard.get_step_data(&WizardStep::GpuConfiguration);
    assert!(gpu_data.title.contains("GPU"));
    assert!(gpu_data.can_skip);

    let theme_data = wizard.get_step_data(&WizardStep::ThemeSelection);
    assert!(theme_data.title.contains("Theme"));
    assert!(theme_data.can_skip);

    let voice_data = wizard.get_step_data(&WizardStep::VoiceSetup);
    assert!(voice_data.title.contains("Voice"));
    assert!(voice_data.can_skip);

    let complete_data = wizard.get_step_data(&WizardStep::Complete);
    assert!(complete_data.title.contains("Complete"));
    assert!(!complete_data.can_skip);
}

#[test]
fn test_wizard_step_completion_tracking() {
    let mut wizard = Wizard::new();
    wizard.open();

    assert!(!wizard.is_step_completed(&WizardStep::Welcome));

    wizard.next_step(); // Complete Welcome, move to GPU
    assert!(wizard.is_step_completed(&WizardStep::Welcome));
    assert!(!wizard.is_step_completed(&WizardStep::GpuConfiguration));

    wizard.next_step(); // Complete GPU, move to Theme
    assert!(wizard.is_step_completed(&WizardStep::GpuConfiguration));
    assert!(!wizard.is_step_completed(&WizardStep::ThemeSelection));
}

#[test]
fn test_wizard_step_skipping() {
    let mut wizard = Wizard::new();
    wizard.open();

    // Can't skip Welcome step
    assert!(!wizard.skip_step());
    assert_eq!(wizard.current_step(), WizardStep::Welcome);

    // Move to GPU step and skip it
    wizard.next_step();
    assert_eq!(wizard.current_step(), WizardStep::GpuConfiguration);
    assert!(wizard.skip_step()); // Should move to Theme step
    assert_eq!(wizard.current_step(), WizardStep::ThemeSelection);
}

#[test]
fn test_wizard_indices_and_texts() {
    let mut wizard = Wizard::default();
    assert_eq!(wizard.total_steps(), 5);
    let titles = [
        "Welcome to ZenTerm",
        "GPU Configuration",
        "Theme Selection",
        "Voice Recognition",
        "Setup Complete",
    ];
    for (index, title) in titles.iter().enumerate() {
        assert_eq!(wizard.current_step_index(), index);
        assert_eq!(wizard.current_step_data().title, *title);
        wizard.next_step();
    }
    assert_eq!(wizard.current_step_index(), 4);
    assert!(wizard
        .current_step_data()
        .description
        .starts_with("Congratulations! Your ZenTerm setup is complete."));
    assert_eq!(
        wizard.get_step_data(&WizardStep::GpuConfiguration).description,
        "Set your preferred GPU usage limit. This helps manage system resources and performance. You can choose from 25%, 50%, 75%, or 100% GPU utilization."
    );
}

#[test]
fn test_wizard_completes_each_step_once() {
    let mut wizard = Wizard::new();
    wizard.open();
    wizard.next_step();
    wizard.previous_step();
    wizard.next_step();
    assert_eq!(wizard.completed_steps(), vec![WizardStep::Welcome]);
    wizard.next_step();
    wizard.next_step();
    wizard.next_step();
    assert!(!wizard.next_step());
    assert!(!wizard.next_step());
    assert_eq!(
        wizard.completed_steps(),
        vec![
            WizardStep::Welcome,
            WizardStep::GpuConfiguration,
            WizardStep::ThemeSelection,
            WizardStep::VoiceSetup,
            WizardStep::Complete,
        ]
    );
    assert_eq!(wizard.current_step(), WizardStep::Complete);
    let copy = wizard.clone();
    assert_eq!(copy.completed_steps(), wizard.completed_steps());
    // Skipping is refused at the last step, and opening starts over.
    assert!(!wizard.skip_step());
    wizard.open();
    assert!(wizard.is_open());
    assert!(wizard.completed_steps().is_empty());
    assert_eq!(wizard.current_step(), WizardStep::Welcome);
}

fn key(code: KeyCode) -> KeyEvent {
    KeyEvent { code, control: false }
}

fn fresh_state() -> SharedAppState {
    SharedAppState::new(StoredConfig::Missing, 0).0
}

fn stored_state() -> SharedAppState {
    SharedAppState::new(StoredConfig::Loaded(Config::default()), 0).0
}

#[test]
fn test_check_limit() {
    assert_eq!(check_limit(25), Ok(()));
    assert_eq!(check_limit(100), Ok(()));
    assert_eq!(
        check_limit(30),
        Err("Invalid GPU limit: 30. Must be 25, 50, 75, or 100".to_string())
    );
    assert_eq!(check_limit(0), Err("Invalid GPU limit: 0. Must be 25, 50, 75, or 100".to_string()));
    assert_eq!(
        check_limit(150),
        Err("Invalid GPU limit: 150. Must be 25, 50, 75, or 100".to_string())
    );
}

#[test]
fn test_shared_app_state_creation() {
    let state = stored_state();

    // Should have default config
    let config = state.get_config();

    // Should have theme matching config
    let theme = state.get_theme();
    assert_eq!(theme.dark_mode, config.theme.dark_mode);

    // Should not be quit requested initially
    assert!(!state.is_quit_requested());
}

#[test]
fn test_event_processing() {
    let mut state = stored_state();

    // Check initial state is not dirty
    assert!(!state.is_config_dirty());

    // Send a GPU limit change event
    let effects = state.handle_event(AppEvent::GpuLimitChanged(25), 1);
    assert_eq!(effects, vec![Effect::ApplyGpuLimit(25)]);

    // Check that GPU limit was updated
    assert_eq!(state.get_gpu_limit(), 25);
    assert_eq!(state.get_config().gpu.limit_percentage, 25);
    assert!(state.is_config_dirty());
}

#[test]
fn test_log_messages() {
    let mut state = stored_state();

    // Add some log messages
    state.add_log_message("Test message 1".to_string(), LogLevel::Info, 1);
    state.add_log_message("Test message 2".to_string(), LogLevel::Warning, 2);

    // Get log messages
    let messages = state.get_log_messages(10);

    // Should have at least the messages we added (plus initial startup message)
    assert!(messages.len() >= 2);

    // Check that our messages are in there
    let has_test1 = messages.iter().any(|m| m.message.contains("Test message 1"));
    let has_test2 = messages.iter().any(|m| m.message.contains("Test message 2"));
    assert!(has_test1);
    assert!(has_test2);
}

#[test]
fn test_wizard_state() {
    let mut state = stored_state();

    // Open wizard
    state.handle_event(AppEvent::WizardOpened, 1);

    assert!(state.is_wizard_open());

    // Close wizard
    state.handle_event(AppEvent::WizardClosed, 2);

    assert!(!state.is_wizard_open());
}

#[test]
fn test_quit_request() {
    let mut state = stored_state();

    assert!(!state.is_quit_requested());

    // Request quit
    state.handle_event(AppEvent::QuitRequested, 1);

    assert!(state.is_quit_requested());
}

#[test]
fn test_state_of_a_first_run() {
    let (state, effects) = SharedAppState::new(StoredConfig::Missing, 42);
    assert_eq!(effects, vec![Effect::ApplyGpuLimit(75)]);
    assert!(state.is_wizard_open());
    assert!(state.get_config().was_fresh);
    assert_eq!(state.get_gpu_limit(), 75);
    assert_eq!(state.get_voice_status(), "OFF");
    assert!(state.get_theme().dark_mode);
    let log = state.get_log_messages(5);
    assert_eq!(log.len(), 1);
    assert_eq!(log[0].message, "ZenTerm Birthday MVP started");
    assert_eq!(log[0].level, LogLevel::Info);
    assert_eq!(log[0].timestamp, 42);
}

#[test]
fn test_state_from_stored_settings() {
    let on_disk = Config {
        gpu: GpuConfig { limit_percentage: 30 },
        theme: ThemeConfig { dark_mode: false },
        voice: VoiceConfig { enabled: true },
        ..Config::default()
    };
    let (state, effects) = SharedAppState::new(StoredConfig::Loaded(on_disk), 0);
    // The voice engine is started; the unsupported limit is not applied.
    assert_eq!(effects, vec![Effect::StartVoice]);
    assert_eq!(state.get_gpu_limit(), 75);
    assert_eq!(state.get_config().gpu.limit_percentage, 30);
    assert!(!state.is_wizard_open());
    assert_eq!(state.get_voice_status(), "ON");
    assert!(!state.get_theme().dark_mode);
    assert_eq!(state.get_theme().palette, ThemePalette::light());

    let on_disk = Config { gpu: GpuConfig { limit_percentage: 50 }, ..on_disk };
    let (state, effects) = SharedAppState::new(StoredConfig::Loaded(on_disk), 0);
    assert_eq!(effects, vec![Effect::StartVoice, Effect::ApplyGpuLimit(50)]);
    assert_eq!(state.get_gpu_limit(), 50);
}

#[test]
fn test_refused_gpu_limit_is_logged() {
    let mut state = stored_state();
    let effects = state.handle_event(AppEvent::GpuLimitChanged(30), 7);
    assert!(effects.is_empty());
    assert_eq!(state.get_gpu_limit(), 75);
    assert!(!state.is_config_dirty());
    let log = state.get_log_messages(1);
    assert_eq!(log[0].message, "GPU Error: Invalid GPU limit: 30. Must be 25, 50, 75, or 100");
    assert_eq!(log[0].level, LogLevel::Error);
    assert_eq!(log[0].timestamp, 7);

    state.handle_event(AppEvent::GpuLimitChanged(100), 8);
    assert_eq!(state.get_log_messages(1)[0].message, "GPU limit set to 100%");
}

#[test]
fn test_theme_and_voice_events() {
    let mut state = stored_state();
    assert!(state.handle_event(AppEvent::ThemeToggled(false), 1).is_empty());
    assert!(!state.get_theme().dark_mode);
    assert_eq!(state.get_theme().name(), "Light");
    assert!(!state.get_config().theme.dark_mode);
    assert!(state.is_config_dirty());
    assert_eq!(state.get_log_messages(1)[0].message, "Theme changed to light");
    state.handle_event(AppEvent::ThemeToggled(true), 2);
    assert_eq!(state.get_log_messages(1)[0].message, "Theme changed to dark");
    assert_eq!(state.get_theme().palette, ThemePalette::dark());

    // Switching off without an engine changes only the settings.
    let mut state = stored_state();
    assert!(state.handle_event(AppEvent::VoiceToggled(false), 3).is_empty());
    assert_eq!(state.get_log_messages(10).len(), 1);
    assert!(state.is_config_dirty());
    assert_eq!(state.get_voice_status(), "OFF");

    assert_eq!(state.handle_event(AppEvent::VoiceToggled(true), 4), vec![Effect::StartVoice]);
    assert_eq!(state.get_voice_status(), "ON");
    assert!(state.get_config().voice.enabled);
    assert_eq!(state.get_log_messages(1)[0].message, "Voice engine started");

    assert_eq!(
        state.handle_event(AppEvent::VoiceToggled(false), 5),
        vec![Effect::SetVoiceEnabled(false)]
    );
    assert_eq!(state.get_voice_status(), "OFF");
    assert!(!state.get_config().voice.enabled);
    assert_eq!(state.get_log_messages(1)[0].message, "Voice engine disabled");

    assert_eq!(
        state.handle_event(AppEvent::VoiceToggled(true), 6),
        vec![Effect::SetVoiceEnabled(true)]
    );
    assert_eq!(state.get_log_messages(1)[0].message, "Voice engine enabled");
}

#[test]
fn test_wizard_log_and_quit_events() {
    let mut state = fresh_state();
    assert!(state.is_wizard_open());
    state.handle_event(AppEvent::WizardClosed, 1);
    assert!(!state.is_wizard_open());
    assert_eq!(state.get_log_messages(1)[0].message, "Setup wizard closed");
    state.handle_event(AppEvent::WizardOpened, 2);
    assert_eq!(state.get_log_messages(1)[0].message, "Setup wizard opened");
    let event = AppEvent::LogMessage("You: hello".to_string());
    assert!(state.handle_event(event.clone(), 3).is_empty());
    assert_eq!(state.get_log_messages(1)[0].message, "You: hello");
    assert!(matches!(event, AppEvent::LogMessage(text) if text == "You: hello"));
    state.handle_event(AppEvent::QuitRequested, 4);
    assert_eq!(state.get_log_messages(1)[0].message, "Quit requested");
    state.handle_event(AppEvent::WizardClosed, 5);
    assert!(state.is_quit_requested());
}

#[test]
fn test_requested_save_is_reported_back() {
    let mut state = stored_state();
    state.handle_event(AppEvent::ThemeToggled(false), 1);
    assert_eq!(state.handle_event(AppEvent::ConfigSaveRequested, 2), vec![Effect::SaveConfig]);
    // Nothing is logged until the write was tried.
    assert_eq!(state.get_log_messages(1)[0].message, "Theme changed to light");

    state.config_saved(Err("disk full".to_string()), 3);
    assert!(state.is_config_dirty());
    let log = state.get_log_messages(1);
    assert_eq!(log[0].message, "Config save failed: disk full");
    assert_eq!(log[0].level, LogLevel::Error);

    state.config_saved(Ok(()), 4);
    assert!(!state.is_config_dirty());
    assert_eq!(state.get_log_messages(1)[0].message, "Configuration saved");
    // A forced write does not count for the debounce.
    assert_eq!(state.get_config().last_save, None);
}

#[test]
fn test_debounced_save_of_the_state() {
    let mut state = stored_state();
    assert!(!state.try_save_config(1_000));
    state.handle_event(AppEvent::GpuLimitChanged(50), 1_000);
    assert!(state.try_save_config(1_000));
    assert!(state.is_config_dirty());
    state.debounced_save_completed(1_000);
    assert!(!state.is_config_dirty());
    assert_eq!(state.get_config().last_save, Some(1_000));

    state.handle_event(AppEvent::GpuLimitChanged(25), 1_100);
    assert!(!state.try_save_config(1_499));
    assert!(state.is_config_dirty());
    assert!(state.try_save_config(1_500));
}

#[test]
fn test_log_keeps_the_newest_thousand() {
    let mut state = stored_state();
    for n in 0..1005u64 {
        state.add_log_message(format!("line {}", n), LogLevel::Debug, n);
    }
    let all = state.get_log_messages(usize::MAX);
    assert_eq!(all.len(), 1000);
    assert_eq!(all[0].message, "line 5");
    assert_eq!(all[999].message, "line 1004");
    let last = state.get_log_messages(3);
    let texts: Vec<&str> = last.iter().map(|e| e.message.as_str()).collect();
    assert_eq!(texts, vec!["line 1002", "line 1003", "line 1004"]);
    assert!(state.get_log_messages(0).is_empty());
    let copy = last[0].clone();
    assert_eq!(copy.timestamp, 1002);
    assert_eq!(copy.level, LogLevel::Debug);
}

#[test]
fn test_voice_mock_creation() {
    let voice = VoiceMock::new(true);

    assert!(voice.is_enabled());
    assert_eq!(voice.status_string(), "ON");
}

#[test]
fn test_voice_mock_disabled() {
    let voice = VoiceMock::new(false);

    assert!(!voice.is_enabled());
    assert_eq!(voice.status_string(), "OFF");
}

#[test]
fn test_voice_enable_disable() {
    let mut voice = VoiceMock::new(true);

    assert!(voice.is_enabled());

    voice.set_enabled(false);
    assert!(!voice.is_enabled());
    assert_eq!(voice.status_string(), "OFF");

    voice.set_enabled(true);
    assert!(voice.is_enabled());
    assert_eq!(voice.status_string(), "ON");
}

#[test]
fn test_voice_command_simulation() {
    let mut voice = VoiceMock::new(true);

    // Test recognized commands
    let help_response = voice.simulate_command("help").unwrap();
    assert!(help_response.contains("Available commands"));

    let status_response = voice.simulate_command("status").unwrap();
    assert!(status_response.contains("running normally"));

    // Test unrecognized command
    let unknown_response = voice.simulate_command("unknown").unwrap();
    assert!(unknown_response.contains("not recognized"));

    // Test disabled voice
    voice.set_enabled(false);
    let disabled_result = voice.simulate_command("help");
    assert!(disabled_result.is_err());
    assert!(disabled_result.unwrap_err().contains("disabled"));
}

#[test]
fn test_voice_commands_in_any_case() {
    let voice = VoiceMock::new(true);
    assert_eq!(
        voice.simulate_command("HELP").unwrap(),
        "Available commands: help, status, quit, gpu limit, theme toggle, voice toggle"
    );
    assert_eq!(voice.simulate_command("Status").unwrap(), "Voice engine is running normally");
    assert_eq!(voice.simulate_command("qUIT").unwrap(), "Goodbye!");
    assert_eq!(
        voice.simulate_command("help ").unwrap(),
        "Command not recognized. Say 'help' for available commands."
    );
    // Only text in lower case is recognised once the case was dealt with.
    assert_eq!(VoiceMock::respond("quit"), "Goodbye!");
    assert_eq!(
        VoiceMock::respond("QUIT"),
        "Command not recognized. Say 'help' for available commands."
    );
    assert_eq!(
        VoiceMock::new(false).simulate_command("quit"),
        Err("Voice engine is disabled".to_string())
    );
}

#[test]
fn test_voice_heartbeat_message() {
    assert_eq!(
        VoiceMock::heartbeat_message(1),
        "Voice engine heartbeat #1 - listening for commands"
    );
    assert_eq!(
        VoiceMock::heartbeat_message(120),
        "Voice engine heartbeat #120 - listening for commands"
    );
}

#[test]
fn test_debounce_env_var() {
    // Test valid debounce value
    assert_eq!(TuiApp::new(None, false, Some("100")).debounce_ms, 100);

    // Test invalid debounce value (too low)
    assert_eq!(TuiApp::new(None, false, Some("10")).debounce_ms, 500);

    // Test invalid debounce value (too high)
    assert_eq!(TuiApp::new(None, false, Some("20000")).debounce_ms, 500);
}

#[test]
fn test_debounce_bounds_and_fallback() {
    assert_eq!(TuiApp::new(None, false, Some("50")).debounce_ms, 50);
    assert_eq!(TuiApp::new(None, false, Some("49")).debounce_ms, 500);
    assert_eq!(TuiApp::new(None, false, Some("10000")).debounce_ms, 10000);
    assert_eq!(TuiApp::new(None, false, Some("10001")).debounce_ms, 500);
    let stored = TuiConfig { gpu_limit: 75, theme: "light".to_string(), debounce_ms: 200 };
    assert_eq!(TuiApp::new(Some(stored.clone()), true, None).debounce_ms, 200);
    assert_eq!(TuiApp::new(Some(stored), true, Some("soon")).debounce_ms, 200);
}

#[test]
fn test_debounce_setting_must_be_a_number() {
    for setting in ["", "+", "-100", "100ms", " 100", "1e3", "0x64", "１００"] {
        assert_eq!(TuiApp::new(None, false, Some(setting)).debounce_ms, 500, "{:?}", setting);
    }
    assert_eq!(TuiApp::new(None, false, Some("0100")).debounce_ms, 100);
    assert_eq!(TuiApp::new(None, false, Some("99999999999999999999999")).debounce_ms, 500);
}

#[test]
fn test_tui_starts_in_wizard_without_settings_file() {
    let app = TuiApp::new(None, false, None);
    assert_eq!(app.mode, AppMode::Wizard);
    assert_eq!(app.wizard_step, TuiWizardStep::Welcome);
    assert!(app.running && !app.show_help && !app.confirm_quit_in_wizard);
    assert_eq!(app.config.gpu_limit, 80);
    assert_eq!(app.palette, Palette::dark());
    assert_eq!(app.last_change, None);

    let stored = TuiConfig { gpu_limit: 75, theme: "light".to_string(), debounce_ms: 200 };
    let app = TuiApp::new(Some(stored), true, None);
    assert_eq!(app.mode, AppMode::Runtime);
    assert_eq!(app.palette, Palette::light());
    assert_eq!(app.config.theme, "light");
    // A file that holds no settings gives the defaults, at run time.
    let app = TuiApp::new(None, true, None);
    assert_eq!(app.mode, AppMode::Runtime);
    assert_eq!(app.config.theme, "dark");
    // Any theme but the light one is shown dark.
    let odd = TuiConfig { gpu_limit: 75, theme: "solarized".to_string(), debounce_ms: 200 };
    assert_eq!(TuiApp::new(Some(odd), true, None).palette, Palette::dark());
}

#[test]
fn test_tui_wizard_keys() {
    let mut app = TuiApp::new(None, false, None);
    assert_eq!(app.handle_input(key(KeyCode::Up), 1), InputAction::Nothing);
    assert_eq!(app.config.gpu_limit, 80);
    assert_eq!(app.handle_input(key(KeyCode::Char('b')), 1), InputAction::Nothing);
    assert_eq!(app.wizard_step, TuiWizardStep::Welcome);

    app.handle_input(key(KeyCode::Enter), 2);
    assert_eq!(app.wizard_step, TuiWizardStep::GpuConfig);
    app.handle_input(key(KeyCode::Up), 3);
    assert_eq!(app.config.gpu_limit, 85);
    assert_eq!(app.last_change, Some(3));
    for _ in 0..5 {
        app.handle_input(key(KeyCode::Up), 4);
    }
    assert_eq!(app.config.gpu_limit, 100);
    for _ in 0..30 {
        app.handle_input(key(KeyCode::Down), 5);
    }
    assert_eq!(app.config.gpu_limit, 10);
    assert_eq!(app.last_change, Some(5));

    app.handle_input(key(KeyCode::Enter), 6);
    assert_eq!(app.wizard_step, TuiWizardStep::Complete);
    app.handle_input(key(KeyCode::Char('b')), 7);
    assert_eq!(app.wizard_step, TuiWizardStep::GpuConfig);
    app.handle_input(key(KeyCode::Char('b')), 7);
    assert_eq!(app.wizard_step, TuiWizardStep::Welcome);
    app.handle_input(key(KeyCode::Enter), 8);
    app.handle_input(key(KeyCode::Enter), 8);
    // Leaving the last step asks for the write and waits for it.
    assert_eq!(app.handle_input(key(KeyCode::Enter), 9), InputAction::SaveAndFinishWizard);
    assert_eq!(app.mode, AppMode::Wizard);
    app.wizard_saved();
    assert_eq!(app.mode, AppMode::Runtime);
}

#[test]
fn test_tui_quit_confirmation() {
    let mut app = TuiApp::new(None, false, None);
    app.handle_input(key(KeyCode::Char('q')), 1);
    assert!(app.confirm_quit_in_wizard && app.running);
    // While the question stands, the help does not open and other keys wait.
    app.handle_input(key(KeyCode::Char('?')), 2);
    assert!(!app.show_help);
    app.handle_input(key(KeyCode::Enter), 2);
    assert_eq!(app.wizard_step, TuiWizardStep::Welcome);
    app.handle_input(key(KeyCode::Char('n')), 3);
    assert!(!app.confirm_quit_in_wizard && app.running);
    app.handle_input(key(KeyCode::Char('q')), 4);
    app.handle_input(key(KeyCode::Esc), 5);
    assert!(!app.confirm_quit_in_wizard);
    app.handle_input(key(KeyCode::Char('q')), 6);
    app.handle_input(key(KeyCode::Char('Y')), 7);
    assert!(!app.running);
}

#[test]
fn test_tui_help_takes_the_keys() {
    let mut app = TuiApp::new(None, true, None);
    app.handle_input(key(KeyCode::Char('?')), 1);
    assert!(app.show_help);
    app.handle_input(key(KeyCode::Char('q')), 2);
    assert!(app.running);
    app.handle_input(key(KeyCode::Char('s')), 2);
    assert_eq!(app.mode, AppMode::Runtime);
    app.handle_input(key(KeyCode::Esc), 3);
    assert!(!app.show_help);
    app.handle_input(key(KeyCode::Char('?')), 4);
    app.handle_input(key(KeyCode::Char('?')), 5);
    assert!(!app.show_help);
    app.handle_input(key(KeyCode::Char('q')), 6);
    assert!(!app.running);
}

#[test]
fn test_tui_settings_keys() {
    let mut app = TuiApp::new(None, true, None);
    app.handle_input(key(KeyCode::Char('s')), 1);
    assert_eq!(app.mode, AppMode::Settings);
    app.handle_input(key(KeyCode::Up), 2);
    assert_eq!(app.config.gpu_limit, 85);
    assert_eq!(app.last_change, Some(2));
    app.config.gpu_limit = 100;
    app.handle_input(key(KeyCode::Up), 3);
    // No change, no note.
    assert_eq!(app.config.gpu_limit, 100);
    assert_eq!(app.last_change, Some(2));
    app.config.gpu_limit = 10;
    app.handle_input(key(KeyCode::Down), 4);
    assert_eq!(app.last_change, Some(2));
    app.handle_input(key(KeyCode::Other), 4);
    assert_eq!(app.last_change, Some(2));

    app.handle_input(key(KeyCode::Char('t')), 5);
    assert_eq!(app.palette, Palette::light());
    assert_eq!(app.config.theme, "light");
    assert_eq!(app.last_change, Some(5));
    app.handle_input(key(KeyCode::Char('t')), 6);
    assert_eq!(app.palette.theme, TuiTheme::Dark);
    assert_eq!(app.config.theme, "dark");

    app.handle_input(key(KeyCode::Char('q')), 7);
    assert_eq!(app.mode, AppMode::Runtime);
    assert!(app.running);
    app.handle_input(key(KeyCode::Char('s')), 8);
    // A plain `c` does nothing, with the control key it stops the interface.
    app.handle_input(key(KeyCode::Char('c')), 9);
    assert!(app.running);
    app.handle_input(KeyEvent { code: KeyCode::Char('c'), control: true }, 9);
    assert!(!app.running);
    assert_eq!(app.mode, AppMode::Settings);
    // Taken directly, the settings also leave on escape.
    app.handle_settings_input(key(KeyCode::Esc), 10);
    assert_eq!(app.mode, AppMode::Runtime);
}

#[test]
fn test_tui_saves_after_the_debounce_time() {
    let mut app = TuiApp::new(None, true, Some("+100"));
    assert!(!app.should_save(1_000));
    app.mark_changed(1_000);
    assert!(!app.should_save(1_099));
    assert!(app.should_save(1_100));
    assert!(!app.should_save(999));
    app.config_saved();
    assert_eq!(app.last_change, None);
    assert!(!app.should_save(5_000));
}

#[test]
fn test_limit_steps_saturate() {
    assert_eq!(raise_limit(80), 85);
    assert_eq!(raise_limit(96), 100);
    assert_eq!(raise_limit(100), 100);
    assert_eq!(raise_limit(u32::MAX), 100);
    assert_eq!(raise_limit(0), 5);
    assert_eq!(lower_limit(80), 75);
    assert_eq!(lower_limit(15), 10);
    assert_eq!(lower_limit(10), 10);
    assert_eq!(lower_limit(3), 10);
    assert_eq!(lower_limit(500), 495);
}

#[test]
fn test_screen_layout() {
    assert_eq!(
        TuiApp::layout(11),
        ScreenLayout { header_height: 1, compact_header: true, show_footer: false }
    );
    assert_eq!(
        TuiApp::layout(12),
        ScreenLayout { header_height: 3, compact_header: false, show_footer: false }
    );
    assert_eq!(
        TuiApp::layout(17),
        ScreenLayout { header_height: 3, compact_header: false, show_footer: false }
    );
    assert_eq!(
        TuiApp::layout(18),
        ScreenLayout { header_height: 3, compact_header: false, show_footer: true }
    );
}
