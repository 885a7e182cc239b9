use overlay_captions::commands;
use overlay_captions::settings::{
    get_settings_path, load_settings, save_settings, settings_path_in, AppSettings,
    ConnectionSettings, FontSettings, OverlaySettings, PartialConnection, PartialFont,
    PartialOverlay, PartialPosition, PartialSettings, PartialSize, Position, Size,
    StoredSettings, APPLICATION, DEFAULT_LINE_HEIGHT_BITS, DEFAULT_OPACITY_BITS, ORGANIZATION,
    QUALIFIER, SETTINGS_FILE_NAME,
};
use overlay_captions::AppState;
use std::path::PathBuf;

fn custom_settings() -> AppSettings {
    AppSettings {
        overlay: OverlaySettings {
            enabled: true,
            position: Position { x: -40, y: 12 },
            size: Size { width: 1280, height: 90 },
            position_preset: "top".to_string(),
            opacity_bits: 0.5f32.to_bits(),
            click_through: true,
            always_on_top: false,
            display_mode: "scroll".to_string(),
            background_color: "#112233".to_string(),
        },
        font: FontSettings {
            family: "Georgia".to_string(),
            size: 18,
            weight: 700,
            color: "#ffcc00".to_string(),
            align: "left".to_string(),
            line_height_bits: 1.75f64.to_bits(),
        },
        connection: ConnectionSettings {
            yjs_server_url: "ws://localhost:1234".to_string(),
            auto_connect: false,
        },
        last_session_code: Some("XYZ789".to_string()),
        theme: "dark".to_string(),
    }
}

fn empty_record() -> PartialSettings {
    PartialSettings {
        overlay: PartialOverlay {
            enabled: None,
            position: PartialPosition { x: None, y: None },
            size: PartialSize { width: None, height: None },
            position_preset: None,
            opacity_bits: None,
            click_through: None,
            always_on_top: None,
            display_mode: None,
            background_color: None,
        },
        font: PartialFont {
            family: None,
            size: None,
            weight: None,
            color: None,
            align: None,
            line_height_bits: None,
        },
        connection: PartialConnection { yjs_server_url: None, auto_connect: None },
        last_session_code: None,
        theme: None,
    }
}

#[test]
fn default_settings_have_the_documented_values() {
    let settings = AppSettings::default();
    assert_eq!(settings.overlay.enabled, false);
    assert_eq!(settings.overlay.position, Position { x: 500, y: 600 });
    assert_eq!(settings.overlay.size, Size { width: 600, height: 160 });
    assert_eq!(settings.overlay.position_preset, "bottom");
    assert_eq!(f32::from_bits(settings.overlay.opacity_bits), 0.95f32);
    assert_eq!(settings.overlay.click_through, false);
    assert_eq!(settings.overlay.always_on_top, true);
    assert_eq!(settings.overlay.display_mode, "lastOnly");
    assert_eq!(settings.overlay.background_color, "#000000");
    assert_eq!(settings.font.family, "Inter, system-ui, sans-serif");
    assert_eq!(settings.font.size, 32);
    assert_eq!(settings.font.weight, 500);
    assert_eq!(settings.font.color, "#ffffff");
    assert_eq!(settings.font.align, "justify");
    assert_eq!(f64::from_bits(settings.font.line_height_bits), 1.3f64);
    assert_eq!(settings.connection.yjs_server_url, "wss://tekstiks.ee/kk");
    assert_eq!(settings.connection.auto_connect, true);
    assert_eq!(settings.last_session_code, None);
    assert_eq!(settings.theme, "system");
}

#[test]
fn default_bit_patterns_are_the_defaults_as_numbers() {
    assert_eq!(DEFAULT_OPACITY_BITS, 0.95f32.to_bits());
    assert_eq!(DEFAULT_LINE_HEIGHT_BITS, 1.3f64.to_bits());
    let opacity = f32::from_bits(DEFAULT_OPACITY_BITS);
    assert!(0.0 <= opacity && opacity <= 1.0);
}

#[test]
fn missing_file_loads_the_defaults() {
    assert_eq!(load_settings(StoredSettings::Missing), AppSettings::default());
}

#[test]
fn unreadable_file_loads_the_defaults() {
    assert_eq!(load_settings(StoredSettings::Unreadable), AppSettings::default());
}

#[test]
fn malformed_file_loads_the_defaults() {
    assert_eq!(load_settings(StoredSettings::Malformed), AppSettings::default());
}

#[test]
fn record_without_fields_loads_the_defaults() {
    assert_eq!(load_settings(StoredSettings::Parsed(empty_record())), AppSettings::default());
}

#[test]
fn missing_font_color_is_filled_with_its_default() {
    let mut record = save_settings(&custom_settings());
    record.font.color = None;
    let loaded = load_settings(StoredSettings::Parsed(record));
    let mut expected = custom_settings();
    expected.font.color = "#ffffff".to_string();
    assert_eq!(loaded, expected);
}

#[test]
fn only_the_present_fields_override_the_defaults() {
    let mut record = empty_record();
    record.overlay.position.y = Some(40);
    record.overlay.click_through = Some(true);
    record.font.size = Some(48);
    record.theme = Some("dark".to_string());
    let loaded = record.complete();
    let mut expected = AppSettings::default();
    expected.overlay.position = Position { x: 500, y: 40 };
    expected.overlay.click_through = true;
    expected.font.size = 48;
    expected.theme = "dark".to_string();
    assert_eq!(loaded, expected);
}

#[test]
fn each_missing_group_is_filled_on_its_own() {
    let mut record = save_settings(&custom_settings());
    record.connection = PartialConnection { yjs_server_url: None, auto_connect: None };
    record.overlay.size = PartialSize { width: None, height: Some(200) };
    let loaded = record.complete();
    let mut expected = custom_settings();
    expected.connection = AppSettings::default().connection;
    expected.overlay.size = Size { width: 600, height: 200 };
    assert_eq!(loaded, expected);
}

#[test]
fn saved_record_names_every_field() {
    let record = save_settings(&custom_settings());
    assert_eq!(record.overlay.enabled, Some(true));
    assert_eq!(record.overlay.position, PartialPosition { x: Some(-40), y: Some(12) });
    assert_eq!(record.overlay.size, PartialSize { width: Some(1280), height: Some(90) });
    assert_eq!(record.overlay.position_preset.as_deref(), Some("top"));
    assert_eq!(record.overlay.opacity_bits, Some(0.5f32.to_bits()));
    assert_eq!(record.overlay.click_through, Some(true));
    assert_eq!(record.overlay.always_on_top, Some(false));
    assert_eq!(record.overlay.display_mode.as_deref(), Some("scroll"));
    assert_eq!(record.overlay.background_color.as_deref(), Some("#112233"));
    assert_eq!(record.font.family.as_deref(), Some("Georgia"));
    assert_eq!(record.font.size, Some(18));
    assert_eq!(record.font.weight, Some(700));
    assert_eq!(record.font.color.as_deref(), Some("#ffcc00"));
    assert_eq!(record.font.align.as_deref(), Some("left"));
    assert_eq!(record.font.line_height_bits, Some(1.75f64.to_bits()));
    assert_eq!(record.connection.yjs_server_url.as_deref(), Some("ws://localhost:1234"));
    assert_eq!(record.connection.auto_connect, Some(false));
    assert_eq!(record.last_session_code.as_deref(), Some("XYZ789"));
    assert_eq!(record.theme.as_deref(), Some("dark"));
}

#[test]
fn saved_settings_load_back_unchanged() {
    let settings = custom_settings();
    let loaded = load_settings(StoredSettings::Parsed(save_settings(&settings)));
    assert_eq!(loaded, settings);
}

#[test]
fn saved_defaults_load_back_unchanged() {
    let settings = AppSettings::default();
    let loaded = load_settings(StoredSettings::Parsed(save_settings(&settings)));
    assert_eq!(loaded, settings);
}

#[test]
fn clone_of_settings_equals_what_was_cloned() {
    let settings = custom_settings();
    assert_eq!(settings.clone(), settings);
}

#[test]
fn save_command_replaces_the_snapshot_and_asks_to_persist() {
    let mut state = AppState::new(AppSettings::default());
    let plan = commands::save_settings(&mut state, custom_settings());
    assert_eq!(state.settings, custom_settings());
    assert_eq!(commands::get_settings(&state), custom_settings());
    assert_eq!(state.overlay_visible, false);
    assert_eq!(plan.steps.len(), 1);
    assert!(plan.steps[0].required);
    assert_eq!(plan.steps[0].effect, overlay_captions::effect::Effect::PersistSettings);
}

#[test]
fn reset_command_restores_the_defaults() {
    let mut state = AppState::new(custom_settings());
    state.overlay_visible = true;
    let plan = commands::reset_settings(&mut state);
    assert_eq!(state.settings, AppSettings::default());
    assert_eq!(state.overlay_visible, true);
    assert_eq!(plan.steps.len(), 1);
    assert_eq!(plan.steps[0].effect, overlay_captions::effect::Effect::PersistSettings);
}

#[test]
fn last_session_code_is_kept_and_returned() {
    let mut state = AppState::new(AppSettings::default());
    let plan = commands::set_last_session_code(&mut state, Some("ABC123".to_string()));
    assert_eq!(commands::get_last_session_code(&state), Some("ABC123".to_string()));
    assert_eq!(plan.steps.len(), 1);
    assert_eq!(plan.steps[0].effect, overlay_captions::effect::Effect::PersistSettings);
    let record = save_settings(&state.settings);
    assert_eq!(record.last_session_code, Some("ABC123".to_string()));
    let mut expected = AppSettings::default();
    expected.last_session_code = Some("ABC123".to_string());
    assert_eq!(state.settings, expected);
}

#[test]
fn last_session_code_can_be_cleared() {
    let mut state = AppState::new(custom_settings());
    commands::set_last_session_code(&mut state, None);
    assert_eq!(commands::get_last_session_code(&state), None);
    assert_eq!(save_settings(&state.settings).last_session_code, None);
}

#[test]
fn settings_file_lies_in_the_configuration_directory() {
    let path = settings_path_in(Some(PathBuf::from("/home/alice/.config/overlay-captions")));
    assert_eq!(path.directory, Some(PathBuf::from("/home/alice/.config/overlay-captions")));
    assert_eq!(path.file_name, "settings.json");
}

#[test]
fn settings_file_falls_back_to_the_working_directory() {
    let path = settings_path_in(None);
    assert_eq!(path.directory, None);
    assert_eq!(path.file_name, "settings.json");
}

#[test]
fn settings_path_of_this_application() {
    let path = get_settings_path();
    assert_eq!(path.file_name, SETTINGS_FILE_NAME);
    assert_eq!(SETTINGS_FILE_NAME, "settings.json");
    assert_eq!((QUALIFIER, ORGANIZATION, APPLICATION), ("ee", "jutukuva", "overlay-captions"));
    if let Some(directory) = path.directory {
        assert!(directory.to_string_lossy().to_lowercase().contains("overlay-captions"));
    }
}

#[test]
fn opacity_is_valid_from_transparent_to_opaque() {
    let mut overlay = AppSettings::default().overlay;
    assert!(overlay.has_valid_opacity());
    for (opacity, valid) in [
        (0.0f32, true),
        (-0.0, true),
        (f32::MIN_POSITIVE, true),
        (0.25, true),
        (0.95, true),
        (1.0, true),
        (1.0 + f32::EPSILON, false),
        (2.0, false),
        (-0.5, false),
        (-f32::MIN_POSITIVE, false),
        (f32::INFINITY, false),
        (f32::NEG_INFINITY, false),
        (f32::NAN, false),
    ] {
        overlay.opacity_bits = opacity.to_bits();
        assert_eq!(overlay.has_valid_opacity(), valid, "{opacity}");
        assert_eq!(valid, (0.0..=1.0).contains(&opacity));
    }
}
