//! Configuration of the daemon: haptic feedback, theme and effects.

use vstd::prelude::*;
use vstd::string::StringExecFns;

verus! {

/// Name of the configuration directory below the user's configuration
/// directory.
pub const CONFIG_DIR: &'static str = "juhradial";

/// Name of the configuration file.
pub const CONFIG_FILE: &'static str = "config.json";

/// The waveform played for each event, by name.
#[derive(Debug, Clone)]
pub struct HapticEventConfig {
    /// Waveform when the menu appears.
    pub menu_appear: String,
    /// Waveform when the cursor moves onto another slice.
    pub slice_change: String,
    /// Waveform when an action is selected.
    pub confirm: String,
    /// Waveform for an invalid or blocked action.
    pub invalid: String,
}

/// Name of the waveform for the menu's appearance where none is configured.
pub fn default_menu_appear() -> (name: String)
    ensures
        name@ == "damp_state_change"@,
{
    String::from_str("damp_state_change")
}

/// Name of the waveform for a slice change where none is configured.
pub fn default_slice_change() -> (name: String)
    ensures
        name@ == "subtle_collision"@,
{
    String::from_str("subtle_collision")
}

/// Name of the waveform for a confirmed selection where none is configured.
pub fn default_confirm() -> (name: String)
    ensures
        name@ == "sharp_state_change"@,
{
    String::from_str("sharp_state_change")
}

/// Name of the waveform for an invalid action where none is configured.
pub fn default_invalid() -> (name: String)
    ensures
        name@ == "angry_alert"@,
{
    String::from_str("angry_alert")
}

impl HapticEventConfig {
    /// Whether these are the waveforms used where nothing is configured.
    pub open spec fn is_default(&self) -> bool {
        &&& self.menu_appear@ == "damp_state_change"@
        &&& self.slice_change@ == "subtle_collision"@
        &&& self.confirm@ == "sharp_state_change"@
        &&& self.invalid@ == "angry_alert"@
    }

    /// Checks the waveform names. Every name is accepted as it is: a name
    /// that no waveform has falls back to the default waveform when it is
    /// resolved.
    pub fn validate(&mut self)
        ensures
            *final(self) == *old(self),
    {
    }
}

impl Default for HapticEventConfig {
    fn default() -> (config: Self)
        ensures
            config.is_default(),
    {
        Self {
            menu_appear: default_menu_appear(),
            slice_change: default_slice_change(),
            confirm: default_confirm(),
            invalid: default_invalid(),
        }
    }
}

/// Haptic feedback configuration.
#[derive(Debug, Clone)]
pub struct HapticConfig {
    /// Whether haptic feedback is enabled.
    pub enabled: bool,
    /// Name of the default waveform.
    pub default_pattern: String,
    /// Waveform names for each event.
    pub per_event: HapticEventConfig,
    /// Minimum time between two pulses, in milliseconds.
    pub debounce_ms: u64,
    /// Minimum time between two slice-change pulses, in milliseconds.
    pub slice_debounce_ms: u64,
    /// Time window in which re-entering the same slice gives no pulse, in
    /// milliseconds.
    pub reentry_debounce_ms: u64,
}

/// The value of a switch that is on where nothing is configured.
pub fn default_true() -> (flag: bool)
    ensures
        flag,
{
    true
}

/// Name of the default waveform where none is configured.
pub fn default_pattern() -> (name: String)
    ensures
        name@ == "subtle_collision"@,
{
    String::from_str("subtle_collision")
}

/// Minimum time between two pulses where none is configured, in milliseconds.
pub fn default_debounce() -> (ms: u64)
    ensures
        ms == 20,
{
    20
}

/// Minimum time between two slice-change pulses where none is configured, in
/// milliseconds.
pub fn default_slice_debounce() -> (ms: u64)
    ensures
        ms == 20,
{
    20
}

/// The re-entry window where none is configured, in milliseconds.
pub fn default_reentry_debounce() -> (ms: u64)
    ensures
        ms == 50,
{
    50
}

impl HapticConfig {
    /// Whether this is the configuration used where nothing is configured.
    pub open spec fn is_default(&self) -> bool {
        &&& self.enabled
        &&& self.default_pattern@ == "subtle_collision"@
        &&& self.per_event.is_default()
        &&& self.debounce_ms == 20
        &&& self.slice_debounce_ms == 20
        &&& self.reentry_debounce_ms == 50
    }

    /// Checks all values. Every value is accepted as it is.
    pub fn validate(&mut self)
        ensures
            *final(self) == *old(self),
    {
        self.per_event.validate();
    }

    /// Whether haptic feedback is switched off.
    pub fn is_disabled(&self) -> (disabled: bool)
        ensures
            disabled == !self.enabled,
    {
        !self.enabled
    }
}

impl Default for HapticConfig {
    fn default() -> (config: Self)
        ensures
            config.is_default(),
    {
        Self {
            enabled: default_true(),
            default_pattern: default_pattern(),
            per_event: HapticEventConfig::default(),
            debounce_ms: default_debounce(),
            slice_debounce_ms: default_slice_debounce(),
            reentry_debounce_ms: default_reentry_debounce(),
        }
    }
}

/// The daemon's configuration.
#[derive(Debug, Clone)]
pub struct Config {
    /// Haptic feedback settings.
    pub haptics: HapticConfig,
    /// Name of the current theme.
    pub theme: String,
    /// Whether blur effects are enabled.
    pub blur_enabled: bool,
    /// The file that the configuration was loaded from or is saved to.
    pub config_path: Option<std::path::PathBuf>,
}

/// Name of the theme where none is configured.
pub fn default_theme() -> (name: String)
    ensures
        name@ == "catppuccin-mocha"@,
{
    String::from_str("catppuccin-mocha")
}

/// The path that `Path::join` gives for a base and a component.
pub uninterp spec fn joined_path(base: std::path::PathBuf, component: Seq<char>)
    -> std::path::PathBuf;

/// `dirs::config_dir`: the user's configuration directory, as the
/// environment of the process gives it. Nothing is claimed of the answer: it
/// may differ from call to call, and there may be none.
#[verifier::external_body]
fn platform_config_dir() -> Option<std::path::PathBuf> {
    dirs::config_dir()
}

/// `Path::join` of the standard library: the base with the component
/// adjoined. The contract names the result and claims nothing else of it:
/// the same base and component give the same path.
#[verifier::external_body]
fn join_path(base: &std::path::PathBuf, component: &str) -> (joined: std::path::PathBuf)
    ensures
        joined == joined_path(*base, component@),
{
    base.join(component)
}

impl Config {
    /// The daemon's configuration directory below a base directory.
    pub open spec fn spec_config_dir_under(base: std::path::PathBuf) -> std::path::PathBuf {
        joined_path(base, CONFIG_DIR@)
    }

    /// The daemon's configuration file below a base directory.
    pub open spec fn spec_config_path_under(base: std::path::PathBuf) -> std::path::PathBuf {
        joined_path(Self::spec_config_dir_under(base), CONFIG_FILE@)
    }

    /// The daemon's configuration directory below the user's configuration
    /// directory `base`; `None` where there is no such directory.
    pub fn config_dir_under(base: Option<std::path::PathBuf>) -> (dir: Option<std::path::PathBuf>)
        ensures
            dir == (match base {
                Some(b) => Some(Self::spec_config_dir_under(b)),
                None => None,
            }),
    {
        match base {
            Some(b) => Some(join_path(&b, CONFIG_DIR)),
            None => None,
        }
    }

    /// The daemon's configuration file below the user's configuration
    /// directory `base`; `None` where there is no such directory.
    pub fn config_path_under(base: Option<std::path::PathBuf>) -> (path: Option<
        std::path::PathBuf,
    >)
        ensures
            path == (match base {
                Some(b) => Some(Self::spec_config_path_under(b)),
                None => None,
            }),
    {
        match Self::config_dir_under(base) {
            Some(dir) => Some(join_path(&dir, CONFIG_FILE)),
            None => None,
        }
    }

    /// The daemon's configuration directory, where the environment gives the
    /// user a configuration directory.
    pub fn default_config_dir() -> (dir: Option<std::path::PathBuf>)
        ensures
            dir matches Some(d) ==> exists|base: std::path::PathBuf|
                d == #[trigger] Self::spec_config_dir_under(base),
    {
        Self::config_dir_under(platform_config_dir())
    }

    /// The daemon's configuration file, where the environment gives the user
    /// a configuration directory.
    pub fn default_config_path() -> (path: Option<std::path::PathBuf>)
        ensures
            path matches Some(p) ==> exists|base: std::path::PathBuf|
                p == #[trigger] Self::spec_config_path_under(base),
    {
        Self::config_path_under(platform_config_dir())
    }

    /// The default configuration for a file that does not exist yet.
    pub fn default_at(path: std::path::PathBuf) -> (config: Config)
        ensures
            config.haptics.is_default(),
            config.theme@ == "catppuccin-mocha"@,
            config.blur_enabled,
            config.config_path == Some(path),
    {
        let mut config = Config::default();
        config.config_path = Some(path);
        config
    }

    /// A configuration that was read from a file: its values are checked and
    /// the file is remembered.
    pub fn loaded_from(self, path: std::path::PathBuf) -> (config: Config)
        ensures
            config == (Config { config_path: Some(path), ..self }),
    {
        let mut config = self;
        config.haptics.validate();
        config.config_path = Some(path);
        config
    }

    /// Whether this is the configuration used where nothing is configured.
    pub open spec fn is_default(&self) -> bool {
        &&& self.haptics.is_default()
        &&& self.theme@ == "catppuccin-mocha"@
        &&& self.blur_enabled
        &&& self.config_path is None
    }

    /// Whether haptic feedback is enabled.
    pub fn haptics_enabled(&self) -> (enabled: bool)
        ensures
            enabled == self.haptics.enabled,
    {
        self.haptics.enabled
    }

    /// Name of the default waveform.
    pub fn default_haptic_pattern(&self) -> (name: &str)
        ensures
            name@ == self.haptics.default_pattern@,
    {
        self.haptics.default_pattern.as_str()
    }
}

impl Default for Config {
    fn default() -> (config: Self)
        ensures
            config.is_default(),
    {
        Self {
            haptics: HapticConfig::default(),
            theme: default_theme(),
            blur_enabled: true,
            config_path: None,
        }
    }
}

} // verus!
