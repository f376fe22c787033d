//! Application settings: their defaults, their changes, and the reading of
//! setting names typed by the user.
//!
//! The settings file itself is read and written by the application, after
//! each change.

use vstd::prelude::*;
use std::path::PathBuf;
use crate::error::AutoLaunchError;
use crate::paths::{config_dir, data_dir, join_path, joined, path_from, path_of_text, path_text, text_of_path};
use crate::snapshot_manager::snapshots_dir_under;
use crate::text::{lowercase, to_lowercase};

verus! {

/// How projects run unless the user says otherwise.
#[derive(Debug, Clone, Copy, PartialEq, Eq, Structural)]
pub enum IsolationMode {
    Sandbox,
    Direct,
}

/// The colour theme of the interface.
#[derive(Debug, Clone, Copy, PartialEq, Eq, Structural)]
pub enum Theme {
    Light,
    Dark,
    System,
}

/// The settings of the application.
#[derive(Debug, Clone)]
pub struct AppSettings {
    /// The isolation mode used by default.
    pub default_isolation_mode: IsolationMode,
    /// Where snapshots are stored.
    pub snapshots_path: String,
    /// The colour theme.
    pub theme: Theme,
    /// Whether temporary files are removed automatically.
    pub auto_cleanup: bool,
    /// The age, in days, past which snapshots are cleaned up.
    pub max_snapshot_age_days: u64,
    /// Whether logging is on.
    pub enable_logging: bool,
}

/// The default snapshot directory, as text: `autolaunch/snapshots` under
/// the data directory, or under `.` where the machine has none.
pub open spec fn default_snapshots_text(data: Option<PathBuf>) -> Seq<char> {
    let base = match data {
        Some(d) => d,
        None => path_of_text("."@),
    };
    text_of_path(snapshots_dir_under(base))
}

/// Where the settings are saved under a configuration directory:
/// `autolaunch/settings.json`.
pub open spec fn settings_file_under(config: PathBuf) -> PathBuf {
    joined(joined(config, "autolaunch"@), "settings.json"@)
}

/// Whether the settings hold the defaults: sandbox, dark theme, automatic
/// clean-up, snapshots kept 30 days, logging on, and the snapshots in the
/// default directory of some data directory (which one depends on the
/// machine).
pub open spec fn is_default(s: AppSettings) -> bool {
    &&& exists|d: Option<PathBuf>| s.snapshots_path@ == #[trigger] default_snapshots_text(d)
    &&& s.default_isolation_mode == IsolationMode::Sandbox
    &&& s.theme == Theme::Dark
    &&& s.auto_cleanup
    &&& s.max_snapshot_age_days == 30
    &&& s.enable_logging
}

impl AppSettings {
    /// The default snapshot directory: `autolaunch/snapshots` under the
    /// user's data directory, or under `.` where there is none.
    pub fn default_snapshots_path() -> (r: String)
        ensures
            exists|d: Option<PathBuf>| r@ == #[trigger] default_snapshots_text(d),
    {
        let data = data_dir();
        let r = AppSettings::snapshots_path_under(data);
        assert(r@ == default_snapshots_text(data));
        r
    }

    /// The default snapshot directory for the given data directory, or for
    /// a machine that has none.
    pub fn snapshots_path_under(data: Option<PathBuf>) -> (r: String)
        ensures
            r@ == default_snapshots_text(data),
    {
        let base = match data {
            Some(d) => d,
            None => path_from("."),
        };
        let app = join_path(&base, "autolaunch");
        path_text(&join_path(&app, "snapshots"))
    }
}

impl Default for AppSettings {
    fn default() -> (s: AppSettings)
        ensures
            is_default(s),
    {
        AppSettings {
            default_isolation_mode: IsolationMode::Sandbox,
            snapshots_path: AppSettings::default_snapshots_path(),
            theme: Theme::Dark,
            auto_cleanup: true,
            max_snapshot_age_days: 30,
            enable_logging: true,
        }
    }
}

/// Keeps the settings in force and the file they are saved in.
pub struct SettingsManager {
    config_path: PathBuf,
    settings: AppSettings,
}

impl SettingsManager {
    /// The settings in force.
    pub closed spec fn current(self) -> AppSettings {
        self.settings
    }

    /// The file the settings are saved in.
    pub closed spec fn config_file(self) -> PathBuf {
        self.config_path
    }

    /// A manager with the default settings, saved in
    /// `autolaunch/settings.json` under the user's configuration directory.
    /// Fails where that directory cannot be determined.
    pub fn new() -> (r: Result<SettingsManager, AutoLaunchError>)
        ensures
            match r {
                Ok(m) => is_default(m.current()) && exists|d: PathBuf| m.config_file() == #[trigger] settings_file_under(d),
                Err(e) => e is Io && e.detail() == "Не удалось определить директорию конфигурации"@,
            },
    {
        let r = Self::with_config_dir(config_dir());
        proof {
            if r is Ok {
                let m = r->Ok_0;
                assert(m.config_file() == settings_file_under(choose|d: PathBuf| m.config_file() == settings_file_under(d)));
            }
        }
        r
    }

    /// A manager with the default settings, saved in
    /// `autolaunch/settings.json` under the given configuration directory,
    /// or the error for a machine that has none.
    pub fn with_config_dir(config: Option<PathBuf>) -> (r: Result<SettingsManager, AutoLaunchError>)
        ensures
            match config {
                None => r is Err && r->Err_0 is Io && r->Err_0.detail() == "Не удалось определить директорию конфигурации"@,
                Some(d) => r is Ok && is_default(r->Ok_0.current()) && r->Ok_0.config_file() == settings_file_under(d),
            },
    {
        match config {
            None => Err(AutoLaunchError::Io(String::from_str("Не удалось определить директорию конфигурации"))),
            Some(dir) => {
                let app = join_path(&dir, "autolaunch");
                let config_path = join_path(&app, "settings.json");
                Ok(SettingsManager { config_path, settings: AppSettings::default() })
            },
        }
    }

    /// A manager for settings read from the given file.
    pub fn with_settings(config_path: PathBuf, settings: AppSettings) -> (m: SettingsManager)
        ensures
            m.current() == settings,
            m.config_file() == config_path,
    {
        SettingsManager { config_path, settings }
    }

    /// The file the settings are saved in.
    pub fn config_path(&self) -> (r: &PathBuf)
        ensures
            *r == self.config_file(),
    {
        &self.config_path
    }

    /// The settings in force.
    pub fn get_settings(&self) -> (s: &AppSettings)
        ensures
            *s == self.current(),
    {
        &self.settings
    }

    /// Puts new settings in force at once. Always succeeds; the caller
    /// saves them.
    pub fn update_settings(&mut self, new_settings: AppSettings) -> (r: Result<(), AutoLaunchError>)
        ensures
            r is Ok,
            final(self).current() == new_settings,
            final(self).config_file() == old(self).config_file(),
    {
        self.settings = new_settings;
        Ok(())
    }

    /// Changes the default isolation mode, the rest unchanged. Always
    /// succeeds; the caller saves the settings.
    pub fn set_default_isolation_mode(&mut self, mode: IsolationMode) -> (r: Result<(), AutoLaunchError>)
        ensures
            r is Ok,
            final(self).current() == (AppSettings { default_isolation_mode: mode, ..old(self).current() }),
            final(self).config_file() == old(self).config_file(),
    {
        self.settings.default_isolation_mode = mode;
        Ok(())
    }

    /// Changes the snapshot directory, the rest unchanged. Always succeeds;
    /// the caller creates the directory and saves the settings.
    pub fn set_snapshots_path(&mut self, path: String) -> (r: Result<(), AutoLaunchError>)
        ensures
            r is Ok,
            final(self).current() == (AppSettings { snapshots_path: path, ..old(self).current() }),
            final(self).config_file() == old(self).config_file(),
    {
        self.settings.snapshots_path = path;
        Ok(())
    }

    /// Changes the theme, the rest unchanged. Always succeeds; the caller
    /// saves the settings.
    pub fn set_theme(&mut self, theme: Theme) -> (r: Result<(), AutoLaunchError>)
        ensures
            r is Ok,
            final(self).current() == (AppSettings { theme, ..old(self).current() }),
            final(self).config_file() == old(self).config_file(),
    {
        self.settings.theme = theme;
        Ok(())
    }

    /// Turns automatic clean-up on or off, the rest unchanged. Always
    /// succeeds; the caller saves the settings.
    pub fn set_auto_cleanup(&mut self, enabled: bool) -> (r: Result<(), AutoLaunchError>)
        ensures
            r is Ok,
            final(self).current() == (AppSettings { auto_cleanup: enabled, ..old(self).current() }),
            final(self).config_file() == old(self).config_file(),
    {
        self.settings.auto_cleanup = enabled;
        Ok(())
    }

    /// Puts the default settings back. Always succeeds; the caller saves
    /// them.
    pub fn reset_to_defaults(&mut self) -> (r: Result<(), AutoLaunchError>)
        ensures
            r is Ok,
            is_default(final(self).current()),
            final(self).config_file() == old(self).config_file(),
    {
        self.settings = AppSettings::default();
        Ok(())
    }
}

/// The isolation mode a user typed: `sandbox` or `direct`, in any case.
pub open spec fn isolation_mode_named(name: Seq<char>) -> Option<IsolationMode> {
    if lowercase(name) == "sandbox"@ {
        Some(IsolationMode::Sandbox)
    } else if lowercase(name) == "direct"@ {
        Some(IsolationMode::Direct)
    } else {
        None
    }
}

/// The theme a user typed: `light`, `dark` or `system`, in any case.
pub open spec fn theme_named(name: Seq<char>) -> Option<Theme> {
    if lowercase(name) == "light"@ {
        Some(Theme::Light)
    } else if lowercase(name) == "dark"@ {
        Some(Theme::Dark)
    } else if lowercase(name) == "system"@ {
        Some(Theme::System)
    } else {
        None
    }
}

/// Reads an isolation mode typed by the user; any other word is refused.
pub fn parse_isolation_mode(mode: &str) -> (r: Result<IsolationMode, AutoLaunchError>)
    ensures
        match r {
            Ok(m) => isolation_mode_named(mode@) == Some(m),
            Err(e) => isolation_mode_named(mode@) is None && e is InvalidInput && e.detail()
                == "Неизвестный режим изоляции: "@ + mode@,
        },
{
    let lower = to_lowercase(mode);
    if lower == String::from_str("sandbox") {
        Ok(IsolationMode::Sandbox)
    } else if lower == String::from_str("direct") {
        Ok(IsolationMode::Direct)
    } else {
        Err(AutoLaunchError::InvalidInput(String::from_str("Неизвестный режим изоляции: ").concat(mode)))
    }
}

/// Reads a theme typed by the user; any other word is refused.
pub fn parse_theme(theme: &str) -> (r: Result<Theme, AutoLaunchError>)
    ensures
        match r {
            Ok(t) => theme_named(theme@) == Some(t),
            Err(e) => theme_named(theme@) is None && e is InvalidInput && e.detail() == "Неизвестная тема: "@ + theme@,
        },
{
    let lower = to_lowercase(theme);
    if lower == String::from_str("light") {
        Ok(Theme::Light)
    } else if lower == String::from_str("dark") {
        Ok(Theme::Dark)
    } else if lower == String::from_str("system") {
        Ok(Theme::System)
    } else {
        Err(AutoLaunchError::InvalidInput(String::from_str("Неизвестная тема: ").concat(theme)))
    }
}

} // verus!
