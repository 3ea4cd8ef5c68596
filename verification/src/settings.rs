//! User settings: the stored configuration, the settings in effect, and the
//! settings page that edits them (with per-field revert and save).

use vstd::prelude::*;
use vstd::std_specs::convert::FromSpec;
use vstd::std_specs::convert::FromSpecImpl;

verus! {

/// Verbosity of the log (the levels of `log::LevelFilter`).
#[derive(Debug, Clone, Copy, PartialEq, Eq, Structural)]
pub enum LogLevel {
    Off,
    Error,
    Warn,
    Info,
    Debug,
    Trace,
}

/// Colour theme of the window.
#[derive(Debug, Clone, Copy, PartialEq, Eq, Structural)]
pub enum Theme {
    Dark,
    Light,
}

/// The stored configuration.
#[derive(Debug, Clone, PartialEq)]
pub struct Config {
    pub map_api_key: String,
    pub interface: String,
    pub keylog_path: String,
    pub log_level: LogLevel,
    pub theme: Theme,
}

/// The settings in effect while the program runs.
#[derive(Debug, Clone, PartialEq)]
pub struct RuntimeSettings {
    pub map_api_key: String,
    pub interface: String,
    pub keylog_path: String,
    pub log_level: LogLevel,
    pub theme: Theme,
}

impl<'a> From<&'a Config> for RuntimeSettings {
    /// The settings a configuration puts in effect (field by field).
    fn from(config: &'a Config) -> (res: Self) {
        RuntimeSettings {
            map_api_key: config.map_api_key.clone(),
            interface: config.interface.clone(),
            keylog_path: config.keylog_path.clone(),
            log_level: config.log_level,
            theme: config.theme,
        }
    }
}

impl<'a> FromSpecImpl<&'a Config> for RuntimeSettings {
    open spec fn obeys_from_spec() -> bool {
        true
    }

    open spec fn from_spec(v: &'a Config) -> Self {
        RuntimeSettings {
            map_api_key: v.map_api_key,
            interface: v.interface,
            keylog_path: v.keylog_path,
            log_level: v.log_level,
            theme: v.theme,
        }
    }
}

impl<'a> From<&'a RuntimeSettings> for Config {
    /// The configuration that stores the settings in effect (field by field).
    fn from(settings: &'a RuntimeSettings) -> (res: Self) {
        Config {
            map_api_key: settings.map_api_key.clone(),
            interface: settings.interface.clone(),
            keylog_path: settings.keylog_path.clone(),
            log_level: settings.log_level,
            theme: settings.theme,
        }
    }
}

impl<'a> FromSpecImpl<&'a RuntimeSettings> for Config {
    open spec fn obeys_from_spec() -> bool {
        true
    }

    open spec fn from_spec(v: &'a RuntimeSettings) -> Self {
        Config {
            map_api_key: v.map_api_key,
            interface: v.interface,
            keylog_path: v.keylog_path,
            log_level: v.log_level,
            theme: v.theme,
        }
    }
}

/// The settings page: values being edited, and whether the map key is shown
/// in clear.
#[derive(Debug, Clone, PartialEq)]
pub struct SettingsPage {
    pub interface: String,
    pub keylog_path: String,
    pub log_level: LogLevel,
    pub map_api_key: String,
    pub theme: Theme,
    pub api_key_shown: bool,
}

/// Every edited value equals the one in effect.
pub open spec fn synchronized(page: SettingsPage, settings: RuntimeSettings) -> bool {
    &&& page.map_api_key@ == settings.map_api_key@
    &&& page.interface@ == settings.interface@
    &&& page.keylog_path@ == settings.keylog_path@
    &&& page.log_level == settings.log_level
    &&& page.theme == settings.theme
}

impl SettingsPage {
    /// A page that edits the settings in effect, with the map key hidden.
    pub fn new(settings: &RuntimeSettings) -> (res: Self)
        ensures
            synchronized(res, *settings),
            res.map_api_key == settings.map_api_key,
            res.interface == settings.interface,
            res.keylog_path == settings.keylog_path,
            res.log_level == settings.log_level,
            res.theme == settings.theme,
            !res.api_key_shown,
    {
        SettingsPage {
            interface: settings.interface.clone(),
            keylog_path: settings.keylog_path.clone(),
            log_level: settings.log_level,
            map_api_key: settings.map_api_key.clone(),
            theme: settings.theme,
            api_key_shown: false,
        }
    }

    /// The edited map key equals the one in effect.
    pub fn is_map_api_key_synchronized(&self, settings: &RuntimeSettings) -> (res: bool)
        ensures
            res == (self.map_api_key@ == settings.map_api_key@),
    {
        self.map_api_key == settings.map_api_key
    }

    /// The edited interface equals the one in effect.
    pub fn is_interface_synchronized(&self, settings: &RuntimeSettings) -> (res: bool)
        ensures
            res == (self.interface@ == settings.interface@),
    {
        self.interface == settings.interface
    }

    /// The edited key-log path equals the one in effect.
    pub fn is_keylog_path_synchronized(&self, settings: &RuntimeSettings) -> (res: bool)
        ensures
            res == (self.keylog_path@ == settings.keylog_path@),
    {
        self.keylog_path == settings.keylog_path
    }

    /// The edited log level equals the one in effect.
    pub fn is_log_level_synchronized(&self, settings: &RuntimeSettings) -> (res: bool)
        ensures
            res == (self.log_level == settings.log_level),
    {
        self.log_level == settings.log_level
    }

    /// The edited theme equals the one in effect.
    pub fn is_theme_synchronized(&self, settings: &RuntimeSettings) -> (res: bool)
        ensures
            res == (self.theme == settings.theme),
    {
        self.theme == settings.theme
    }

    /// Shows or hides the map key.
    pub fn toggle_api_key_shown(&mut self)
        ensures
            *final(self) == (SettingsPage { api_key_shown: !old(self).api_key_shown, ..*old(self) }),
    {
        self.api_key_shown = !self.api_key_shown;
    }

    /// Puts the map key in effect back into the page.
    pub fn revert_map_api_key(&mut self, settings: &RuntimeSettings)
        ensures
            *final(self) == (SettingsPage { map_api_key: settings.map_api_key, ..*old(self) }),
    {
        self.map_api_key = settings.map_api_key.clone();
    }

    /// Puts the interface in effect back into the page.
    pub fn revert_interface(&mut self, settings: &RuntimeSettings)
        ensures
            *final(self) == (SettingsPage { interface: settings.interface, ..*old(self) }),
    {
        self.interface = settings.interface.clone();
    }

    /// Puts the key-log path in effect back into the page.
    pub fn revert_keylog_path(&mut self, settings: &RuntimeSettings)
        ensures
            *final(self) == (SettingsPage { keylog_path: settings.keylog_path, ..*old(self) }),
    {
        self.keylog_path = settings.keylog_path.clone();
    }

    /// Puts the log level in effect back into the page.
    pub fn revert_log_level(&mut self, settings: &RuntimeSettings)
        ensures
            *final(self) == (SettingsPage { log_level: settings.log_level, ..*old(self) }),
    {
        self.log_level = settings.log_level;
    }

    /// Puts the theme in effect back into the page.
    pub fn revert_theme(&mut self, settings: &RuntimeSettings)
        ensures
            *final(self) == (SettingsPage { theme: settings.theme, ..*old(self) }),
    {
        self.theme = settings.theme;
    }

    /// Puts every edited value in effect.
    pub fn save(&self, settings: &mut RuntimeSettings)
        ensures
            *final(settings) == (RuntimeSettings {
                map_api_key: self.map_api_key,
                interface: self.interface,
                keylog_path: self.keylog_path,
                log_level: self.log_level,
                theme: self.theme,
            }),
    {
        settings.interface = self.interface.clone();
        settings.map_api_key = self.map_api_key.clone();
        settings.keylog_path = self.keylog_path.clone();
        settings.log_level = self.log_level;
        settings.theme = self.theme;
    }
}

/// Storing the settings in effect and putting the stored configuration back in
/// effect gives back the same configuration, and the same settings.
pub proof fn lemma_config_roundtrip(config: Config, settings: RuntimeSettings)
    ensures
        <Config as FromSpec<&RuntimeSettings>>::from_spec(
            &<RuntimeSettings as FromSpec<&Config>>::from_spec(&config),
        ) == config,
        <RuntimeSettings as FromSpec<&Config>>::from_spec(
            &<Config as FromSpec<&RuntimeSettings>>::from_spec(&settings),
        ) == settings,
{
}

/// A fresh page shows the settings in effect, and after saving, the settings
/// in effect are the edited ones: either way every field is synchronized.
pub proof fn lemma_new_and_save_synchronize(page: SettingsPage, settings: RuntimeSettings)
    ensures
        synchronized(
            page,
            RuntimeSettings {
                map_api_key: page.map_api_key,
                interface: page.interface,
                keylog_path: page.keylog_path,
                log_level: page.log_level,
                theme: page.theme,
            },
        ),
        synchronized(
            SettingsPage {
                interface: settings.interface,
                keylog_path: settings.keylog_path,
                log_level: settings.log_level,
                map_api_key: settings.map_api_key,
                theme: settings.theme,
                api_key_shown: false,
            },
            settings,
        ),
{
}

/// Reverting a field makes that field synchronized and leaves the others as
/// they were; reverting every field synchronizes the page.
pub proof fn lemma_revert_all_synchronizes(page: SettingsPage, settings: RuntimeSettings)
    ensures
        synchronized(
            SettingsPage {
                map_api_key: settings.map_api_key,
                interface: settings.interface,
                keylog_path: settings.keylog_path,
                log_level: settings.log_level,
                theme: settings.theme,
                ..page
            },
            settings,
        ),
{
}

/// Showing and hiding the map key twice leaves the page as it was.
pub proof fn lemma_toggle_twice(page: SettingsPage)
    ensures
        (SettingsPage {
            api_key_shown: !(SettingsPage { api_key_shown: !page.api_key_shown, ..page }).api_key_shown,
            ..(SettingsPage { api_key_shown: !page.api_key_shown, ..page })
        }) == page,
{
}

/// Putting a configuration in effect, and storing the settings in effect,
/// copy each field to the field of the same name.
pub proof fn lemma_conversions_keep_fields(config: Config, settings: RuntimeSettings)
    ensures
        ({
            let r = <RuntimeSettings as FromSpec<&Config>>::from_spec(&config);
            &&& r.map_api_key == config.map_api_key
            &&& r.interface == config.interface
            &&& r.keylog_path == config.keylog_path
            &&& r.log_level == config.log_level
            &&& r.theme == config.theme
        }),
        ({
            let c = <Config as FromSpec<&RuntimeSettings>>::from_spec(&settings);
            &&& c.map_api_key == settings.map_api_key
            &&& c.interface == settings.interface
            &&& c.keylog_path == settings.keylog_path
            &&& c.log_level == settings.log_level
            &&& c.theme == settings.theme
        }),
{
}

/// A page is synchronized exactly when each of its five edited values equals
/// the value in effect.
pub proof fn lemma_synchronized_means_fields_equal(page: SettingsPage, settings: RuntimeSettings)
    ensures
        synchronized(page, settings) <==> (page.map_api_key@ == settings.map_api_key@
            && page.interface@ == settings.interface@ && page.keylog_path@ == settings.keylog_path@
            && page.log_level == settings.log_level && page.theme == settings.theme),
{
}

} // verus!
