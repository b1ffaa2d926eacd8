//! User settings: their shape, their defaults, and the manager that holds
//! the current ones.

use vstd::prelude::*;
use crate::text::own;

verus! {

/// The interface mode.
#[derive(Debug, Clone, Copy, PartialEq, Eq, Structural)]
pub enum AppMode {
    Simple,
    Advanced,
}

/// How freely data may leave the machine.
#[derive(Debug, Clone, Copy, PartialEq, Eq, Structural)]
pub enum PrivacyMode {
    Strict,
    Balanced,
    Open,
}

impl PrivacyMode {
    /// The name of the mode as it is stored (`strict`, `balanced`, `open`).
    pub fn name(&self) -> (res: String)
        ensures
            res@ == privacy_mode_name(*self),
    {
        match self {
            PrivacyMode::Strict => own("strict"),
            PrivacyMode::Balanced => own("balanced"),
            PrivacyMode::Open => own("open"),
        }
    }
}

/// The stored name of a privacy mode.
pub open spec fn privacy_mode_name(m: PrivacyMode) -> Seq<char> {
    match m {
        PrivacyMode::Strict => "strict"@,
        PrivacyMode::Balanced => "balanced"@,
        PrivacyMode::Open => "open"@,
    }
}

#[derive(Debug, Clone)]
pub struct GeneralSettings {
    pub mode: AppMode,
    pub auto_save: bool,
    pub auto_save_delay_ms: u64,
    pub recent_projects: Vec<String>,
}

#[derive(Debug, Clone)]
pub struct EditorSettings {
    pub font_family: String,
    pub font_size: u32,
    pub tab_size: u32,
    pub insert_spaces: bool,
    pub word_wrap: bool,
    pub minimap_enabled: bool,
    pub line_numbers: bool,
    pub bracket_pair_colorization: bool,
    pub format_on_save: bool,
}

#[derive(Debug, Clone)]
pub struct TerminalSettings {
    pub shell: Option<String>,
    pub font_family: String,
    pub font_size: u32,
    pub cursor_style: String,
}

/// Settings of one AI provider.
#[derive(Debug, Clone)]
pub struct ProviderSettings {
    pub enabled: bool,
    pub api_key: Option<String>,
    pub base_url: Option<String>,
    pub model: Option<String>,
}

/// AI settings; `providers` holds each provider's settings under its name.
#[derive(Debug, Clone)]
pub struct AiSettings {
    pub default_provider: String,
    pub ollama_url: String,
    pub ollama_port: u16,
    pub default_model: String,
    pub vision_model: String,
    pub plan_before_edit: bool,
    pub privacy_mode: PrivacyMode,
    pub allow_cloud_screenshots: bool,
    pub providers: Vec<(String, ProviderSettings)>,
}

#[derive(Debug, Clone)]
pub struct AppearanceSettings {
    pub theme: String,
    pub accent_color: String,
    pub transparency: bool,
}

/// All settings; `extra` keeps the stored members this version does not
/// know, each by name with its JSON text.
#[derive(Debug, Clone)]
pub struct Settings {
    pub general: GeneralSettings,
    pub editor: EditorSettings,
    pub terminal: TerminalSettings,
    pub ai: AiSettings,
    pub appearance: AppearanceSettings,
    pub extra: Vec<(String, String)>,
}

impl Default for Settings {
    /// The settings of a fresh installation.
    fn default() -> (res: Self)
        ensures
            res.general.mode == AppMode::Simple,
            res.general.auto_save,
            res.general.auto_save_delay_ms == 1000,
            res.general.recent_projects@.len() == 0,
            res.editor.font_family@ == "Fira Code"@,
            res.editor.font_size == 14,
            res.editor.tab_size == 4,
            res.editor.insert_spaces,
            !res.editor.word_wrap,
            res.editor.minimap_enabled,
            res.editor.line_numbers,
            res.editor.bracket_pair_colorization,
            !res.editor.format_on_save,
            res.terminal.shell is None,
            res.terminal.font_family@ == "Fira Code"@,
            res.terminal.font_size == 14,
            res.terminal.cursor_style@ == "block"@,
            res.ai.default_provider@ == "ollama"@,
            res.ai.ollama_url@ == "http://localhost"@,
            res.ai.ollama_port == 11434,
            res.ai.default_model@ == "llama3.2"@,
            res.ai.vision_model@ == "qwen2.5vl"@,
            res.ai.plan_before_edit,
            res.ai.privacy_mode == PrivacyMode::Balanced,
            !res.ai.allow_cloud_screenshots,
            res.ai.providers@.len() == 0,
            res.appearance.theme@ == "frutiger-light"@,
            res.appearance.accent_color@ == "#0078d4"@,
            res.appearance.transparency,
            res.extra@.len() == 0,
    {
        Settings {
            general: GeneralSettings {
                mode: AppMode::Simple,
                auto_save: true,
                auto_save_delay_ms: 1000,
                recent_projects: Vec::new(),
            },
            editor: EditorSettings {
                font_family: own("Fira Code"),
                font_size: 14,
                tab_size: 4,
                insert_spaces: true,
                word_wrap: false,
                minimap_enabled: true,
                line_numbers: true,
                bracket_pair_colorization: true,
                format_on_save: false,
            },
            terminal: TerminalSettings {
                shell: None,
                font_family: own("Fira Code"),
                font_size: 14,
                cursor_style: own("block"),
            },
            ai: AiSettings {
                default_provider: own("ollama"),
                ollama_url: own("http://localhost"),
                ollama_port: 11434,
                default_model: own("llama3.2"),
                vision_model: own("qwen2.5vl"),
                plan_before_edit: true,
                privacy_mode: PrivacyMode::Balanced,
                allow_cloud_screenshots: false,
                providers: Vec::new(),
            },
            appearance: AppearanceSettings {
                theme: own("frutiger-light"),
                accent_color: own("#0078d4"),
                transparency: true,
            },
            extra: Vec::new(),
        }
    }
}

/// The current settings and the file they are kept in.
pub struct SettingsManager {
    settings: Settings,
    path: String,
}

impl SettingsManager {
    /// The settings held.
    pub closed spec fn settings_spec(&self) -> Settings {
        self.settings
    }

    /// The file the settings are kept in.
    pub closed spec fn path_spec(&self) -> Seq<char> {
        self.path@
    }

    /// A manager holding `settings`, kept in the file at `path`.
    pub fn new(settings: Settings, path: String) -> (res: Self)
        ensures
            res.settings_spec() == settings,
            res.path_spec() == path@,
    {
        SettingsManager { settings, path }
    }

    /// The settings held.
    pub fn get(&self) -> (res: &Settings)
        ensures
            *res == self.settings_spec(),
    {
        &self.settings
    }

    /// The file the settings are kept in.
    pub fn path(&self) -> (res: &str)
        ensures
            res@ == self.path_spec(),
    {
        self.path.as_str()
    }

    /// Replaces the settings held; the file stays the same.
    pub fn update(&mut self, settings: Settings)
        ensures
            final(self).settings_spec() == settings,
            final(self).path_spec() == old(self).path_spec(),
    {
        self.settings = settings;
    }
}

} // verus!
