//! The persisted configuration record, its defaults, and the rule by which a
//! partially populated record read from disk is completed.
//!
//! Fractional numbers are kept as IEEE 754 bit patterns: the record only
//! stores and hands them on, it never computes with them.

use std::path::PathBuf;
use vstd::prelude::*;

verus! {

/// `std::path::PathBuf`, carried through as it is: the core never looks
/// inside a path.
#[verifier::external_type_specification]
#[verifier::external_body]
pub struct ExPathBuf(std::path::PathBuf);

/// First part of the identifier under which the platform files this application.
pub const QUALIFIER: &'static str = "ee";

/// Organisation part of that identifier.
pub const ORGANIZATION: &'static str = "jutukuva";

/// Application part of that identifier.
pub const APPLICATION: &'static str = "overlay-captions";

/// Name of the settings file inside the configuration directory.
pub const SETTINGS_FILE_NAME: &'static str = "settings.json";

/// Bit pattern of the default overlay opacity, ninety-five hundredths in single precision.
pub const DEFAULT_OPACITY_BITS: u32 = 0x3F73_3333;

/// Bit pattern of one in single precision: the opacity of an opaque overlay.
pub const OPAQUE_BITS: u32 = 0x3F80_0000;

/// Bit pattern of negative zero in single precision.
pub const NEGATIVE_ZERO_BITS: u32 = 0x8000_0000;

/// Bit pattern of the default line height, thirteen tenths in double precision.
pub const DEFAULT_LINE_HEIGHT_BITS: u64 = 0x3FF4_CCCC_CCCC_CCCD;

/// Top-left corner of a window, in pixels.
#[derive(Clone, Copy, Debug, PartialEq, Eq, Structural)]
pub struct Position {
    pub x: i32,
    pub y: i32,
}

/// Extent of a window, in pixels.
#[derive(Clone, Copy, Debug, PartialEq, Eq, Structural)]
pub struct Size {
    pub width: u32,
    pub height: u32,
}

/// Geometry and behaviour of the overlay window.
#[derive(Debug, PartialEq, Eq)]
pub struct OverlaySettings {
    pub enabled: bool,
    pub position: Position,
    pub size: Size,
    pub position_preset: String,
    /// Single-precision bit pattern of a number between zero and one.
    pub opacity_bits: u32,
    pub click_through: bool,
    pub always_on_top: bool,
    pub display_mode: String,
    pub background_color: String,
}

/// Typography of the caption text.
#[derive(Debug, PartialEq, Eq)]
pub struct FontSettings {
    pub family: String,
    pub size: u32,
    pub weight: u32,
    pub color: String,
    pub align: String,
    /// Double-precision bit pattern of the line height.
    pub line_height_bits: u64,
}

/// Where the caption text comes from.
#[derive(Debug, PartialEq, Eq)]
pub struct ConnectionSettings {
    pub yjs_server_url: String,
    pub auto_connect: bool,
}

/// The root record. Every field is always populated.
#[derive(Debug, PartialEq, Eq)]
pub struct AppSettings {
    pub overlay: OverlaySettings,
    pub font: FontSettings,
    pub connection: ConnectionSettings,
    pub last_session_code: Option<String>,
    pub theme: String,
}

/// The overlay settings as values: each text is the sequence of its characters.
pub struct OverlaySettingsView {
    pub enabled: bool,
    pub position: Position,
    pub size: Size,
    pub position_preset: Seq<char>,
    pub opacity_bits: u32,
    pub click_through: bool,
    pub always_on_top: bool,
    pub display_mode: Seq<char>,
    pub background_color: Seq<char>,
}

/// The font settings as values.
pub struct FontSettingsView {
    pub family: Seq<char>,
    pub size: u32,
    pub weight: u32,
    pub color: Seq<char>,
    pub align: Seq<char>,
    pub line_height_bits: u64,
}

/// The connection settings as values.
pub struct ConnectionSettingsView {
    pub yjs_server_url: Seq<char>,
    pub auto_connect: bool,
}

/// The root record as a value.
pub struct AppSettingsView {
    pub overlay: OverlaySettingsView,
    pub font: FontSettingsView,
    pub connection: ConnectionSettingsView,
    pub last_session_code: Option<Seq<char>>,
    pub theme: Seq<char>,
}

/// The text of an optional string.
pub open spec fn text_of(value: Option<String>) -> Option<Seq<char>> {
    match value {
        Some(text) => Some(text@),
        None => None,
    }
}

impl View for OverlaySettings {
    type V = OverlaySettingsView;

    open spec fn view(&self) -> OverlaySettingsView {
        OverlaySettingsView {
            enabled: self.enabled,
            position: self.position,
            size: self.size,
            position_preset: self.position_preset@,
            opacity_bits: self.opacity_bits,
            click_through: self.click_through,
            always_on_top: self.always_on_top,
            display_mode: self.display_mode@,
            background_color: self.background_color@,
        }
    }
}

impl View for FontSettings {
    type V = FontSettingsView;

    open spec fn view(&self) -> FontSettingsView {
        FontSettingsView {
            family: self.family@,
            size: self.size,
            weight: self.weight,
            color: self.color@,
            align: self.align@,
            line_height_bits: self.line_height_bits,
        }
    }
}

impl View for ConnectionSettings {
    type V = ConnectionSettingsView;

    open spec fn view(&self) -> ConnectionSettingsView {
        ConnectionSettingsView {
            yjs_server_url: self.yjs_server_url@,
            auto_connect: self.auto_connect,
        }
    }
}

impl View for AppSettings {
    type V = AppSettingsView;

    open spec fn view(&self) -> AppSettingsView {
        AppSettingsView {
            overlay: self.overlay@,
            font: self.font@,
            connection: self.connection@,
            last_session_code: text_of(self.last_session_code),
            theme: self.theme@,
        }
    }
}

/// Whether `bits` is the single-precision pattern of a number from zero to
/// one. Among the patterns with the sign bit clear, numbers are ordered as
/// their patterns are, and the patterns above that of one stand for larger
/// numbers, for infinity and for what is not a number; with the sign bit set
/// only negative zero is not below zero.
pub open spec fn is_opacity(bits: u32) -> bool {
    bits <= OPAQUE_BITS || bits == NEGATIVE_ZERO_BITS
}

impl OverlaySettings {
    /// Whether the opacity lies between transparent and opaque. The settings
    /// are stored and handed on whether or not it does.
    pub fn has_valid_opacity(&self) -> (valid: bool)
        ensures
            valid == is_opacity(self.opacity_bits),
    {
        self.opacity_bits <= OPAQUE_BITS || self.opacity_bits == NEGATIVE_ZERO_BITS
    }
}

impl OverlaySettingsView {
    /// The overlay a fresh installation starts with.
    pub open spec fn initial() -> OverlaySettingsView {
        OverlaySettingsView {
            enabled: false,
            position: Position { x: 500, y: 600 },
            size: Size { width: 600, height: 160 },
            position_preset: "bottom"@,
            opacity_bits: DEFAULT_OPACITY_BITS,
            click_through: false,
            always_on_top: true,
            display_mode: "lastOnly"@,
            background_color: "#000000"@,
        }
    }
}

impl FontSettingsView {
    /// The typography a fresh installation starts with.
    pub open spec fn initial() -> FontSettingsView {
        FontSettingsView {
            family: "Inter, system-ui, sans-serif"@,
            size: 32,
            weight: 500,
            color: "#ffffff"@,
            align: "justify"@,
            line_height_bits: DEFAULT_LINE_HEIGHT_BITS,
        }
    }
}

impl ConnectionSettingsView {
    /// The connection a fresh installation starts with.
    pub open spec fn initial() -> ConnectionSettingsView {
        ConnectionSettingsView { yjs_server_url: "wss://tekstiks.ee/kk"@, auto_connect: true }
    }
}

impl AppSettingsView {
    /// The record a fresh installation starts with.
    pub open spec fn initial() -> AppSettingsView {
        AppSettingsView {
            overlay: OverlaySettingsView::initial(),
            font: FontSettingsView::initial(),
            connection: ConnectionSettingsView::initial(),
            last_session_code: None,
            theme: "system"@,
        }
    }
}

impl Clone for OverlaySettings {
    fn clone(&self) -> (copy: Self)
        ensures
            copy == *self,
    {
        OverlaySettings {
            enabled: self.enabled,
            position: self.position,
            size: self.size,
            position_preset: self.position_preset.clone(),
            opacity_bits: self.opacity_bits,
            click_through: self.click_through,
            always_on_top: self.always_on_top,
            display_mode: self.display_mode.clone(),
            background_color: self.background_color.clone(),
        }
    }
}

impl Clone for FontSettings {
    fn clone(&self) -> (copy: Self)
        ensures
            copy == *self,
    {
        FontSettings {
            family: self.family.clone(),
            size: self.size,
            weight: self.weight,
            color: self.color.clone(),
            align: self.align.clone(),
            line_height_bits: self.line_height_bits,
        }
    }
}

impl Clone for ConnectionSettings {
    fn clone(&self) -> (copy: Self)
        ensures
            copy == *self,
    {
        ConnectionSettings {
            yjs_server_url: self.yjs_server_url.clone(),
            auto_connect: self.auto_connect,
        }
    }
}

impl Clone for AppSettings {
    fn clone(&self) -> (copy: Self)
        ensures
            copy == *self,
    {
        AppSettings {
            overlay: self.overlay.clone(),
            font: self.font.clone(),
            connection: self.connection.clone(),
            last_session_code: match &self.last_session_code {
                Some(code) => Some(code.clone()),
                None => None,
            },
            theme: self.theme.clone(),
        }
    }
}

impl Default for AppSettings {
    /// The record used when nothing usable is stored.
    fn default() -> (settings: Self)
        ensures
            settings@ == AppSettingsView::initial(),
    {
        AppSettings {
            overlay: OverlaySettings {
                enabled: false,
                position: Position { x: 500, y: 600 },
                size: Size { width: 600, height: 160 },
                position_preset: "bottom".to_owned(),
                opacity_bits: DEFAULT_OPACITY_BITS,
                click_through: false,
                always_on_top: true,
                display_mode: "lastOnly".to_owned(),
                background_color: "#000000".to_owned(),
            },
            font: FontSettings {
                family: "Inter, system-ui, sans-serif".to_owned(),
                size: 32,
                weight: 500,
                color: "#ffffff".to_owned(),
                align: "justify".to_owned(),
                line_height_bits: DEFAULT_LINE_HEIGHT_BITS,
            },
            connection: ConnectionSettings {
                yjs_server_url: "wss://tekstiks.ee/kk".to_owned(),
                auto_connect: true,
            },
            last_session_code: None,
            theme: "system".to_owned(),
        }
    }
}

/// What a settings file holds for the overlay position: each coordinate may be missing.
#[derive(Clone, Copy, Debug, PartialEq, Eq, Structural)]
pub struct PartialPosition {
    pub x: Option<i32>,
    pub y: Option<i32>,
}

/// What a settings file holds for the overlay size: each extent may be missing.
#[derive(Clone, Copy, Debug, PartialEq, Eq, Structural)]
pub struct PartialSize {
    pub width: Option<u32>,
    pub height: Option<u32>,
}

/// What a settings file holds for the overlay: each field may be missing.
#[derive(Debug, PartialEq, Eq)]
pub struct PartialOverlay {
    pub enabled: Option<bool>,
    pub position: PartialPosition,
    pub size: PartialSize,
    pub position_preset: Option<String>,
    pub opacity_bits: Option<u32>,
    pub click_through: Option<bool>,
    pub always_on_top: Option<bool>,
    pub display_mode: Option<String>,
    pub background_color: Option<String>,
}

/// What a settings file holds for the typography: each field may be missing.
#[derive(Debug, PartialEq, Eq)]
pub struct PartialFont {
    pub family: Option<String>,
    pub size: Option<u32>,
    pub weight: Option<u32>,
    pub color: Option<String>,
    pub align: Option<String>,
    pub line_height_bits: Option<u64>,
}

/// What a settings file holds for the connection: each field may be missing.
#[derive(Debug, PartialEq, Eq)]
pub struct PartialConnection {
    pub yjs_server_url: Option<String>,
    pub auto_connect: Option<bool>,
}

/// What a well-formed settings file holds: any subset of the fields of
/// [`AppSettings`]. A group that is missing as a whole has all its fields
/// missing.
#[derive(Debug, PartialEq, Eq)]
pub struct PartialSettings {
    pub overlay: PartialOverlay,
    pub font: PartialFont,
    pub connection: PartialConnection,
    pub last_session_code: Option<String>,
    pub theme: Option<String>,
}

/// The stored overlay fields as values.
pub struct PartialOverlayView {
    pub enabled: Option<bool>,
    pub position: PartialPosition,
    pub size: PartialSize,
    pub position_preset: Option<Seq<char>>,
    pub opacity_bits: Option<u32>,
    pub click_through: Option<bool>,
    pub always_on_top: Option<bool>,
    pub display_mode: Option<Seq<char>>,
    pub background_color: Option<Seq<char>>,
}

/// The stored font fields as values.
pub struct PartialFontView {
    pub family: Option<Seq<char>>,
    pub size: Option<u32>,
    pub weight: Option<u32>,
    pub color: Option<Seq<char>>,
    pub align: Option<Seq<char>>,
    pub line_height_bits: Option<u64>,
}

/// The stored connection fields as values.
pub struct PartialConnectionView {
    pub yjs_server_url: Option<Seq<char>>,
    pub auto_connect: Option<bool>,
}

/// The stored record as a value.
pub struct PartialSettingsView {
    pub overlay: PartialOverlayView,
    pub font: PartialFontView,
    pub connection: PartialConnectionView,
    pub last_session_code: Option<Seq<char>>,
    pub theme: Option<Seq<char>>,
}

impl View for PartialOverlay {
    type V = PartialOverlayView;

    open spec fn view(&self) -> PartialOverlayView {
        PartialOverlayView {
            enabled: self.enabled,
            position: self.position,
            size: self.size,
            position_preset: text_of(self.position_preset),
            opacity_bits: self.opacity_bits,
            click_through: self.click_through,
            always_on_top: self.always_on_top,
            display_mode: text_of(self.display_mode),
            background_color: text_of(self.background_color),
        }
    }
}

impl View for PartialFont {
    type V = PartialFontView;

    open spec fn view(&self) -> PartialFontView {
        PartialFontView {
            family: text_of(self.family),
            size: self.size,
            weight: self.weight,
            color: text_of(self.color),
            align: text_of(self.align),
            line_height_bits: self.line_height_bits,
        }
    }
}

impl View for PartialConnection {
    type V = PartialConnectionView;

    open spec fn view(&self) -> PartialConnectionView {
        PartialConnectionView {
            yjs_server_url: text_of(self.yjs_server_url),
            auto_connect: self.auto_connect,
        }
    }
}

impl View for PartialSettings {
    type V = PartialSettingsView;

    open spec fn view(&self) -> PartialSettingsView {
        PartialSettingsView {
            overlay: self.overlay@,
            font: self.font@,
            connection: self.connection@,
            last_session_code: text_of(self.last_session_code),
            theme: text_of(self.theme),
        }
    }
}

/// The stored value where there is one, the fallback where it is missing.
pub open spec fn stored_or<T>(stored: Option<T>, fallback: T) -> T {
    match stored {
        Some(value) => value,
        None => fallback,
    }
}

impl PartialOverlayView {
    /// The overlay settings in which every missing field has its initial value.
    pub open spec fn completed(self) -> OverlaySettingsView {
        let initial = OverlaySettingsView::initial();
        OverlaySettingsView {
            enabled: stored_or(self.enabled, initial.enabled),
            position: Position {
                x: stored_or(self.position.x, initial.position.x),
                y: stored_or(self.position.y, initial.position.y),
            },
            size: Size {
                width: stored_or(self.size.width, initial.size.width),
                height: stored_or(self.size.height, initial.size.height),
            },
            position_preset: stored_or(self.position_preset, initial.position_preset),
            opacity_bits: stored_or(self.opacity_bits, initial.opacity_bits),
            click_through: stored_or(self.click_through, initial.click_through),
            always_on_top: stored_or(self.always_on_top, initial.always_on_top),
            display_mode: stored_or(self.display_mode, initial.display_mode),
            background_color: stored_or(self.background_color, initial.background_color),
        }
    }
}

impl PartialFontView {
    /// The font settings in which every missing field has its initial value.
    pub open spec fn completed(self) -> FontSettingsView {
        let initial = FontSettingsView::initial();
        FontSettingsView {
            family: stored_or(self.family, initial.family),
            size: stored_or(self.size, initial.size),
            weight: stored_or(self.weight, initial.weight),
            color: stored_or(self.color, initial.color),
            align: stored_or(self.align, initial.align),
            line_height_bits: stored_or(self.line_height_bits, initial.line_height_bits),
        }
    }
}

impl PartialConnectionView {
    /// The connection settings in which every missing field has its initial value.
    pub open spec fn completed(self) -> ConnectionSettingsView {
        let initial = ConnectionSettingsView::initial();
        ConnectionSettingsView {
            yjs_server_url: stored_or(self.yjs_server_url, initial.yjs_server_url),
            auto_connect: stored_or(self.auto_connect, initial.auto_connect),
        }
    }
}

impl PartialSettingsView {
    /// The record that names no field at all.
    pub open spec fn blank() -> PartialSettingsView {
        PartialSettingsView {
            overlay: PartialOverlayView {
                enabled: None,
                position: PartialPosition { x: None, y: None },
                size: PartialSize { width: None, height: None },
                position_preset: None,
                opacity_bits: None,
                click_through: None,
                always_on_top: None,
                display_mode: None,
                background_color: None,
            },
            font: PartialFontView {
                family: None,
                size: None,
                weight: None,
                color: None,
                align: None,
                line_height_bits: None,
            },
            connection: PartialConnectionView { yjs_server_url: None, auto_connect: None },
            last_session_code: None,
            theme: None,
        }
    }

    /// The record that equals the initial one except in the fields that are
    /// present here. A missing session code stays missing.
    pub open spec fn completed(self) -> AppSettingsView {
        AppSettingsView {
            overlay: self.overlay.completed(),
            font: self.font.completed(),
            connection: self.connection.completed(),
            last_session_code: self.last_session_code,
            theme: stored_or(self.theme, AppSettingsView::initial().theme),
        }
    }
}

impl OverlaySettingsView {
    /// The same settings with every field present.
    pub open spec fn stored(self) -> PartialOverlayView {
        PartialOverlayView {
            enabled: Some(self.enabled),
            position: PartialPosition { x: Some(self.position.x), y: Some(self.position.y) },
            size: PartialSize { width: Some(self.size.width), height: Some(self.size.height) },
            position_preset: Some(self.position_preset),
            opacity_bits: Some(self.opacity_bits),
            click_through: Some(self.click_through),
            always_on_top: Some(self.always_on_top),
            display_mode: Some(self.display_mode),
            background_color: Some(self.background_color),
        }
    }
}

impl FontSettingsView {
    /// The same settings with every field present.
    pub open spec fn stored(self) -> PartialFontView {
        PartialFontView {
            family: Some(self.family),
            size: Some(self.size),
            weight: Some(self.weight),
            color: Some(self.color),
            align: Some(self.align),
            line_height_bits: Some(self.line_height_bits),
        }
    }
}

impl ConnectionSettingsView {
    /// The same settings with every field present.
    pub open spec fn stored(self) -> PartialConnectionView {
        PartialConnectionView {
            yjs_server_url: Some(self.yjs_server_url),
            auto_connect: Some(self.auto_connect),
        }
    }
}

impl AppSettingsView {
    /// The record as it is written to disk: every field present, the session
    /// code where there is one.
    pub open spec fn stored(self) -> PartialSettingsView {
        PartialSettingsView {
            overlay: self.overlay.stored(),
            font: self.font.stored(),
            connection: self.connection.stored(),
            last_session_code: self.last_session_code,
            theme: Some(self.theme),
        }
    }
}

fn text_or(stored: Option<String>, fallback: &str) -> (text: String)
    ensures
        text@ == stored_or(text_of(stored), fallback@),
{
    match stored {
        Some(value) => value,
        None => fallback.to_owned(),
    }
}

fn value_or<T>(stored: Option<T>, fallback: T) -> (value: T)
    ensures
        value == stored_or(stored, fallback),
{
    match stored {
        Some(value) => value,
        None => fallback,
    }
}

impl PartialOverlay {
    /// Fills every missing field with its initial value.
    pub fn complete(self) -> (settings: OverlaySettings)
        ensures
            settings@ == self@.completed(),
    {
        OverlaySettings {
            enabled: value_or(self.enabled, false),
            position: Position {
                x: value_or(self.position.x, 500),
                y: value_or(self.position.y, 600),
            },
            size: Size {
                width: value_or(self.size.width, 600),
                height: value_or(self.size.height, 160),
            },
            position_preset: text_or(self.position_preset, "bottom"),
            opacity_bits: value_or(self.opacity_bits, DEFAULT_OPACITY_BITS),
            click_through: value_or(self.click_through, false),
            always_on_top: value_or(self.always_on_top, true),
            display_mode: text_or(self.display_mode, "lastOnly"),
            background_color: text_or(self.background_color, "#000000"),
        }
    }
}

impl PartialFont {
    /// Fills every missing field with its initial value.
    pub fn complete(self) -> (settings: FontSettings)
        ensures
            settings@ == self@.completed(),
    {
        FontSettings {
            family: text_or(self.family, "Inter, system-ui, sans-serif"),
            size: value_or(self.size, 32),
            weight: value_or(self.weight, 500),
            color: text_or(self.color, "#ffffff"),
            align: text_or(self.align, "justify"),
            line_height_bits: value_or(self.line_height_bits, DEFAULT_LINE_HEIGHT_BITS),
        }
    }
}

impl PartialConnection {
    /// Fills every missing field with its initial value.
    pub fn complete(self) -> (settings: ConnectionSettings)
        ensures
            settings@ == self@.completed(),
    {
        ConnectionSettings {
            yjs_server_url: text_or(self.yjs_server_url, "wss://tekstiks.ee/kk"),
            auto_connect: value_or(self.auto_connect, true),
        }
    }
}

impl PartialSettings {
    /// The record that equals the initial one except in the fields that are
    /// present in `self`.
    pub fn complete(self) -> (settings: AppSettings)
        ensures
            settings@ == self@.completed(),
    {
        AppSettings {
            overlay: self.overlay.complete(),
            font: self.font.complete(),
            connection: self.connection.complete(),
            last_session_code: self.last_session_code,
            theme: text_or(self.theme, "system"),
        }
    }
}

/// What reading the settings file came to.
#[derive(Debug, PartialEq, Eq)]
pub enum StoredSettings {
    /// There is no settings file.
    Missing,
    /// The file exists but its content could not be read.
    Unreadable,
    /// The content is not a settings record.
    Malformed,
    /// The content is a settings record, with the fields it names.
    Parsed(PartialSettings),
}

/// The record that a stored state stands for.
pub open spec fn loaded(stored: StoredSettings) -> AppSettingsView {
    match stored {
        StoredSettings::Parsed(record) => record@.completed(),
        _ => AppSettingsView::initial(),
    }
}

/// The settings to start with. A missing, unreadable or malformed file gives
/// the initial record, a well-formed one the initial record overridden by the
/// fields that the file names. Loading never fails.
pub fn load_settings(stored: StoredSettings) -> (settings: AppSettings)
    ensures
        settings@ == loaded(stored),
{
    match stored {
        StoredSettings::Parsed(record) => record.complete(),
        _ => AppSettings::default(),
    }
}

/// The record to write for `settings`: every field present.
pub fn save_settings(settings: &AppSettings) -> (record: PartialSettings)
    ensures
        record@ == settings@.stored(),
{
    PartialSettings {
        overlay: PartialOverlay {
            enabled: Some(settings.overlay.enabled),
            position: PartialPosition {
                x: Some(settings.overlay.position.x),
                y: Some(settings.overlay.position.y),
            },
            size: PartialSize {
                width: Some(settings.overlay.size.width),
                height: Some(settings.overlay.size.height),
            },
            position_preset: Some(settings.overlay.position_preset.clone()),
            opacity_bits: Some(settings.overlay.opacity_bits),
            click_through: Some(settings.overlay.click_through),
            always_on_top: Some(settings.overlay.always_on_top),
            display_mode: Some(settings.overlay.display_mode.clone()),
            background_color: Some(settings.overlay.background_color.clone()),
        },
        font: PartialFont {
            family: Some(settings.font.family.clone()),
            size: Some(settings.font.size),
            weight: Some(settings.font.weight),
            color: Some(settings.font.color.clone()),
            align: Some(settings.font.align.clone()),
            line_height_bits: Some(settings.font.line_height_bits),
        },
        connection: PartialConnection {
            yjs_server_url: Some(settings.connection.yjs_server_url.clone()),
            auto_connect: Some(settings.connection.auto_connect),
        },
        last_session_code: match &settings.last_session_code {
            Some(code) => Some(code.clone()),
            None => None,
        },
        theme: Some(settings.theme.clone()),
    }
}

/// Where the settings file lives.
#[derive(Debug, PartialEq, Eq)]
pub struct SettingsPath {
    /// The directory that holds the file. Without one the file lies in the
    /// working directory.
    pub directory: Option<PathBuf>,
    pub file_name: &'static str,
}

/// The per-user configuration directory that the platform assigns to the
/// project with the given identifier.
///
/// Calls `directories::ProjectDirs::from` with the three parts and, where it
/// returns a value, `ProjectDirs::config_dir` on it. The answer depends on the
/// operating system and on the user's environment, and there is none where
/// the platform can name no home for the user: nothing is claimed of it.
#[verifier::external_body]
fn project_config_dir(qualifier: &str, organization: &str, application: &str) -> (directory: Option<PathBuf>) {
    match directories::ProjectDirs::from(qualifier, organization, application) {
        Some(project) => Some(project.config_dir().to_path_buf()),
        None => None,
    }
}

/// The settings file inside `config_dir`, or in the working directory where
/// the platform names no configuration directory.
pub fn settings_path_in(config_dir: Option<PathBuf>) -> (path: SettingsPath)
    ensures
        path.directory == config_dir,
        path.file_name@ == SETTINGS_FILE_NAME@,
{
    SettingsPath { directory: config_dir, file_name: SETTINGS_FILE_NAME }
}

/// The settings file of this application for the current user. The file is
/// always called [`SETTINGS_FILE_NAME`]; its directory is the one the platform
/// assigns, if any.
pub fn get_settings_path() -> (path: SettingsPath)
    ensures
        path.file_name@ == SETTINGS_FILE_NAME@,
{
    settings_path_in(project_config_dir(QUALIFIER, ORGANIZATION, APPLICATION))
}

} // verus!
