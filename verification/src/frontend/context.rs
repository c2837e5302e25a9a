//! The settings in use and the page on display.

use vstd::prelude::*;

use crate::frontend::config::{Config, Theme};
use crate::frontend::logs::LogLevel;
use crate::frontend::pages::Page;
use vstd::std_specs::convert::FromSpecImpl;
use crate::text::{trim, trim_str};

verus! {

/// The settings the running application uses; they become the stored
/// settings when saved.
#[derive(Debug, Clone)]
pub struct RuntimeSettings {
    pub app_id: String,
    pub log_level: LogLevel,
    pub theme: Theme,
}

impl RuntimeSettings {
    /// The application key that requests carry: the key in use without
    /// surrounding white space.
    pub fn request_app_id(&self) -> (key: String)
        ensures
            key@ == trim(self.app_id@),
    {
        trim_str(self.app_id.as_str())
    }
}

impl From<&Config> for RuntimeSettings {
    /// The same three settings (`settings_of`).
    fn from(config: &Config) -> (s: Self) {
        RuntimeSettings { app_id: config.app_id.clone(), log_level: config.log_level, theme: config.theme }
    }
}

impl FromSpecImpl<&Config> for RuntimeSettings {
    open spec fn obeys_from_spec() -> bool {
        true
    }

    open spec fn from_spec(config: &Config) -> Self {
        settings_of(*config)
    }
}

impl From<&RuntimeSettings> for Config {
    /// The same three settings (`config_of`).
    fn from(settings: &RuntimeSettings) -> (c: Self) {
        Config { app_id: settings.app_id.clone(), log_level: settings.log_level, theme: settings.theme }
    }
}

impl FromSpecImpl<&RuntimeSettings> for Config {
    open spec fn obeys_from_spec() -> bool {
        true
    }

    open spec fn from_spec(settings: &RuntimeSettings) -> Self {
        config_of(*settings)
    }
}

/// The settings in use that stored settings give: the same three values.
pub open spec fn settings_of(config: Config) -> RuntimeSettings {
    RuntimeSettings { app_id: config.app_id, log_level: config.log_level, theme: config.theme }
}

/// The stored settings that settings in use give: the same three values.
pub open spec fn config_of(settings: RuntimeSettings) -> Config {
    Config { app_id: settings.app_id, log_level: settings.log_level, theme: settings.theme }
}

/// Storing the settings in use and taking them up again changes nothing,
/// and neither does taking up stored settings and storing them again.
pub proof fn lemma_settings_round_trip(config: Config, settings: RuntimeSettings)
    ensures
        config_of(settings_of(config)) == config,
        settings_of(config_of(settings)) == settings,
{
}

/// What the window shows.
#[derive(Debug)]
pub struct UiState {
    pub page: Page,
}

impl Default for UiState {
    /// The main page.
    fn default() -> (s: Self)
        ensures
            s.page == Page::Main,
    {
        UiState { page: Page::Main }
    }
}

impl UiState {
    /// Shows the main page.
    pub fn switch_to_main(&mut self)
        ensures
            final(self).page == Page::Main,
    {
        self.page = Page::Main;
    }

    /// Shows the settings page.
    pub fn switch_to_settings(&mut self)
        ensures
            final(self).page == Page::Settings,
    {
        self.page = Page::Settings;
    }

    /// Shows the information page.
    pub fn switch_to_info(&mut self)
        ensures
            final(self).page == Page::Info,
    {
        self.page = Page::Info;
    }
}

} // verus!
