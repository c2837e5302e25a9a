//! The stored settings of the application.

use vstd::prelude::*;

use crate::frontend::logs::LogLevel;

verus! {

/// The colour scheme of the window.
#[derive(Debug, Clone, Copy, PartialEq, Eq, Structural)]
pub enum Theme {
    Dark,
    Light,
    System,
}

/// The settings kept between runs.
#[derive(Debug, Clone)]
pub struct Config {
    pub app_id: String,
    pub log_level: LogLevel,
    pub theme: Theme,
}

impl Default for Config {
    /// No application key, logging off, dark theme.
    fn default() -> (c: Self)
        ensures
            c.app_id@ == Seq::<char>::empty(),
            c.log_level == LogLevel::Off,
            c.theme == Theme::Dark,
    {
        Config { app_id: String::new(), log_level: LogLevel::Off, theme: Theme::Dark }
    }
}

} // verus!
