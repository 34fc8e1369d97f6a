use zenterm::desktop::cli::{Cli, Verbosity};
use zenterm::desktop::config::{Config, ConfigManager, GeneralConfig, StoredConfig};
use zenterm::desktop::gui::{
    bot_reply, chat_lines, chat_lines_for, chat_outcome_line, is_white_space_char, launch, trim,
    voice_toggle_target, ChatOutcome, Launch, WizardForm,
};
use zenterm::engine::event_bus::AppEvent;

#[test]
fn test_log_level_follows_verbosity() {
    let level = |verbose: u8| Cli { reset_config: false, verbose }.log_level();
    assert_eq!(level(0), Verbosity::Info);
    assert_eq!(level(1), Verbosity::Debug);
    assert_eq!(level(2), Verbosity::Trace);
    assert_eq!(level(255), Verbosity::Trace);
}

#[test]
fn test_desktop_config_default() {
    let config = Config::default();
    assert_eq!(config.version, "0.1.0");
    assert_eq!(config.general.theme, "dark");
    assert_eq!(config.general.gpu_limit_mb, 1024);
    assert!(!config.general.telemetry);
}

#[test]
fn test_config_manager_starts_with_defaults() {
    let manager = ConfigManager::new("/tmp/zenterm/config.toml".to_string());
    assert_eq!(manager.config_path(), "/tmp/zenterm/config.toml");
    assert_eq!(manager.config().general.gpu_limit_mb, 1024);
    assert!(!manager.needs_save());
}

#[test]
fn test_config_manager_load() {
    let mut manager = ConfigManager::new("config.toml".to_string());
    let on_disk = Config {
        version: "0.0.9".to_string(),
        general: GeneralConfig { theme: "light".to_string(), gpu_limit_mb: 2048, telemetry: true },
    };
    assert!(!manager.load(StoredConfig::Loaded(on_disk.clone())));
    assert!(!manager.needs_save());
    assert_eq!(manager.config().version, "0.0.9");
    assert_eq!(manager.config().general.theme, "light");
    assert_eq!(manager.config().general.gpu_limit_mb, 2048);
    assert!(manager.config().general.telemetry);

    for stored in [StoredConfig::Missing, StoredConfig::Unreadable, StoredConfig::Corrupt] {
        let mut manager = ConfigManager::new("config.toml".to_string());
        manager.load(StoredConfig::Loaded(on_disk.clone()));
        assert!(manager.load(stored));
        assert!(manager.needs_save());
        assert_eq!(manager.config().version, "0.1.0");
        assert_eq!(manager.config().general.theme, "dark");
        assert_eq!(manager.config().general.gpu_limit_mb, 1024);
        manager.save_completed();
        assert!(!manager.needs_save());
        assert_eq!(manager.config_path(), "config.toml");
    }
}

#[test]
fn test_config_manager_reset() {
    let mut manager = ConfigManager::new("config.toml".to_string());
    manager.load(StoredConfig::Loaded(Config {
        version: "9.9.9".to_string(),
        general: GeneralConfig { theme: "light".to_string(), gpu_limit_mb: 1, telemetry: true },
    }));
    manager.reset();
    assert!(manager.needs_save());
    assert_eq!(manager.config().version, "0.1.0");
    assert_eq!(manager.config().general.theme, "dark");
    assert_eq!(manager.config().general.gpu_limit_mb, 1024);
    assert!(!manager.config().general.telemetry);
    assert_eq!(manager.config_path(), "config.toml");
}

#[test]
fn test_launch_decision() {
    assert_eq!(launch(true, false, false), Launch::Gui);
    assert_eq!(launch(true, true, false), Launch::Gui);
    assert_eq!(launch(false, true, true), Launch::TuiUnavailable);
    assert_eq!(launch(false, true, false), Launch::TuiUnavailable);
    assert_eq!(launch(false, false, true), Launch::Gui);
    assert_eq!(launch(false, false, false), Launch::Usage);
}

#[test]
fn test_wizard_form_walk() {
    let mut form = WizardForm::new();
    assert_eq!(form, WizardForm { step: 0, gpu_limit: 25, theme_dark: true, voice_enabled: false });
    assert_eq!(form.title(), "Welcome");
    assert!(!form.can_go_back());
    assert!(form.can_go_next());
    form.back();
    assert_eq!(form.step, 0);

    assert!(form.next().is_none());
    assert_eq!(form.title(), "GPU Configuration");
    assert_eq!(form.description(), "Select a GPU limit to help manage resources.");
    form.gpu_limit = 75;
    assert!(matches!(form.next(), Some(AppEvent::GpuLimitChanged(75))));
    assert_eq!(form.title(), "Theme Selection");
    form.theme_dark = false;
    assert!(matches!(form.next(), Some(AppEvent::ThemeToggled(false))));
    assert_eq!(form.title(), "Voice Setup");
    form.back();
    assert_eq!(form.step, 2);
    form.next();
    form.voice_enabled = true;
    assert!(matches!(form.next(), Some(AppEvent::VoiceToggled(true))));
    assert_eq!(form.step, 4);
    assert_eq!(form.title(), "Complete");
    assert_eq!(form.description(), "Setup complete. Save settings to finish.");
    assert!(!form.can_go_next());
    assert!(form.can_go_back());
    // At the last page going on does nothing.
    assert!(form.next().is_none());
    assert_eq!(form.step, 4);

    form.step = 2;
    let events = form.finish();
    assert_eq!(events.len(), 2);
    assert!(matches!(events[0], AppEvent::ConfigSaveRequested));
    assert!(matches!(events[1], AppEvent::WizardClosed));
    assert_eq!(form.step, 4);
    assert_eq!(form.gpu_limit, 75);

    // A step beyond the pages shows the last page.
    form.step = 9;
    assert_eq!(form.page(), 4);
    assert_eq!(form.title(), "Complete");
    assert!(form.next().is_none());
    assert_eq!(form.step, 9);
}

#[test]
fn test_chat_lines_are_trimmed() {
    assert_eq!(
        chat_lines("  hello world \n"),
        Some(("You: hello world".to_string(), "Bot: Echo: hello world".to_string()))
    );
    assert_eq!(chat_lines("ls"), Some(("You: ls".to_string(), "Bot: Echo: ls".to_string())));
    assert_eq!(chat_lines(""), None);
    assert_eq!(chat_lines(" \t\u{a0}\n"), None);
    assert_eq!(chat_lines_for(""), None);
    assert_eq!(
        chat_lines_for(" x "),
        Some(("You:  x ".to_string(), "Bot: Echo:  x ".to_string()))
    );
    assert_eq!(bot_reply("  Hi there.\n\n"), "Bot: Hi there.");
    assert_eq!(bot_reply(""), "Bot: ");
}

#[test]
fn test_voice_button_switches_on_from_off() {
    assert!(voice_toggle_target("OFF"));
    assert!(!voice_toggle_target("ON"));
    assert!(!voice_toggle_target("off"));
}

#[test]
fn test_chat_outcome_lines() {
    let line = |outcome: ChatOutcome| chat_outcome_line(&outcome);
    assert_eq!(line(ChatOutcome::Answer(" Hello! \n".to_string())), "Bot: Hello!");
    assert_eq!(line(ChatOutcome::NoAnswer), "Bot: (no reply)");
    assert_eq!(
        line(ChatOutcome::Unreadable("EOF".to_string())),
        "Bot: failed to parse response: EOF"
    );
    assert_eq!(
        line(ChatOutcome::RequestFailed("timed out".to_string())),
        "Bot: request failed: timed out"
    );
    assert_eq!(
        line(ChatOutcome::NoClient("no TLS".to_string())),
        "Bot: failed to create HTTP client: no TLS"
    );
}

#[test]
fn test_white_space_is_what_the_standard_library_says() {
    let mut white = Vec::new();
    for code in 0..=0x10FFFFu32 {
        if let Some(c) = char::from_u32(code) {
            assert_eq!(is_white_space_char(c), c.is_whitespace(), "U+{:04X}", code);
            if is_white_space_char(c) {
                white.push(c);
            }
        }
    }
    assert_eq!(white.len(), 25);
    // Around and inside a word, each of them is trimmed as the standard
    // library trims it.
    for c in white {
        let text = format!("{c}{c}a{c}b{c}");
        assert_eq!(trim(&text), text.trim(), "U+{:04X}", c as u32);
        assert_eq!(trim(&text), format!("a{c}b"));
        assert_eq!(trim(&format!("{c}")), "");
    }
}

#[test]
fn test_trim_agrees_with_the_standard_library() {
    let texts = [
        "",
        " ",
        "a",
        " a",
        "a ",
        "  a  b  ",
        "\t\r\n x \n",
        "\u{a0}é\u{3000}",
        "\u{200b}zero width is no white space\u{200b}",
        "\u{180e}a\u{feff}",
        " \u{2028}\u{2029} ",
        "no space at all",
        "ünïcödé  ",
    ];
    for text in texts {
        assert_eq!(trim(text), text.trim(), "{:?}", text);
    }
}
