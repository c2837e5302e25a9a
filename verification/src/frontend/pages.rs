//! The pages of the window: the main page with the task input, and the
//! settings page.

use vstd::prelude::*;

use crate::backend::input::Input;
use crate::frontend::config::Theme;
use crate::frontend::context::RuntimeSettings;
use crate::frontend::logs::LogLevel;
use crate::text::{IntErrorKind, int_decimal, lemma_decimal_parse_round_trip, parse_int, parse_isize};

verus! {

/// The pages the window can show.
#[derive(Debug, Clone, Copy, PartialEq, Eq, Structural)]
pub enum Page {
    Main,
    Settings,
    Info,
}

impl Default for Page {
    /// The main page.
    fn default() -> (p: Self)
        ensures
            p == Page::Main,
    {
        Page::Main
    }
}

/// Why the task input is refused.
#[derive(Debug, Clone, Copy, PartialEq, Eq, Structural)]
pub enum InputError {
    /// A bound is not an integer.
    Parse(IntErrorKind),
    /// A bound is empty.
    Empty,
    /// `A` is not lower than `B`.
    Order,
}

/// The task that the two input texts give, or why there is none: both must
/// be non-empty integers, the first lower than the second.
pub open spec fn validate_text(a: Seq<char>, b: Seq<char>) -> Result<(int, int), InputError> {
    if a.len() == 0 || b.len() == 0 {
        Err(InputError::Empty)
    } else {
        match parse_int(a) {
            Err(k) => Err(InputError::Parse(k)),
            Ok(x) => match parse_int(b) {
                Err(k) => Err(InputError::Parse(k)),
                Ok(y) => if x >= y {
                    Err(InputError::Order)
                } else {
                    Ok((x, y))
                },
            },
        }
    }
}

/// Bounds typed as the decimal texts of two integers are accepted, as
/// those integers, exactly when the first is lower than the second, and are
/// otherwise refused for their order; an empty bound is refused as empty,
/// whatever the other holds.
pub proof fn lemma_validate_decimal(a: isize, b: isize, other: Seq<char>)
    ensures
        validate_text(int_decimal(a as int), int_decimal(b as int)) == if a < b {
            Ok::<(int, int), InputError>((a as int, b as int))
        } else {
            Err::<(int, int), InputError>(InputError::Order)
        },
        validate_text(Seq::<char>::empty(), other) == Err::<(int, int), InputError>(InputError::Empty),
        validate_text(other, Seq::<char>::empty()) == Err::<(int, int), InputError>(InputError::Empty),
{
    lemma_decimal_parse_round_trip(a);
    lemma_decimal_parse_round_trip(b);
    assert(int_decimal(a as int).len() > 0);
    assert(int_decimal(b as int).len() > 0);
}

/// The main page: the two task bounds as typed, and the journal of the
/// current run.
#[derive(Debug)]
pub struct MainPage {
    pub a: String,
    pub b: String,
    pub journal_output: String,
}

impl Default for MainPage {
    /// Empty inputs and an empty journal.
    fn default() -> (p: Self)
        ensures
            p.a@ == Seq::<char>::empty(),
            p.b@ == Seq::<char>::empty(),
            p.journal_output@ == Seq::<char>::empty(),
    {
        MainPage { a: String::new(), b: String::new(), journal_output: String::new() }
    }
}

impl MainPage {
    /// The task that the inputs give (see `validate_text`).
    pub fn validate_inputs(&self) -> (r: Result<Input, InputError>)
        ensures
            match r {
                Ok(input) => validate_text(self.a@, self.b@) == Ok::<(int, int), InputError>(
                    (input.a as int, input.b as int),
                ),
                Err(e) => validate_text(self.a@, self.b@) == Err::<(int, int), InputError>(e),
            },
            r matches Ok(input) ==> input.a < input.b,
    {
        if self.a.as_str().unicode_len() == 0 || self.b.as_str().unicode_len() == 0 {
            return Err(InputError::Empty);
        }
        let a = match parse_isize(self.a.as_str()) {
            Ok(v) => v,
            Err(k) => {
                return Err(InputError::Parse(k));
            },
        };
        let b = match parse_isize(self.b.as_str()) {
            Ok(v) => v,
            Err(k) => {
                return Err(InputError::Parse(k));
            },
        };
        if a >= b {
            return Err(InputError::Order);
        }
        Ok(Input { a, b })
    }

    /// Adds a line to the journal.
    pub fn push_journal(&mut self, message: &str)
        ensures
            final(self).journal_output@ == old(self).journal_output@ + message@ + "\n"@,
            final(self).a == old(self).a,
            final(self).b == old(self).b,
    {
        self.journal_output.append(message);
        self.journal_output.append("\n");
    }
}

/// A setting on the settings page.
#[derive(Debug, Clone, Copy, PartialEq, Eq, Structural)]
pub enum SettingField {
    AppId,
    LogLevel,
    Theme,
}

/// The settings page: the values being edited.
#[derive(Debug)]
pub struct SettingsPage {
    pub app_id: String,
    pub log_level: LogLevel,
    pub theme: Theme,
}

/// Whether the page shows the value in use for `field`.
pub open spec fn field_synchronized(page: SettingsPage, settings: RuntimeSettings, field: SettingField) -> bool {
    match field {
        SettingField::AppId => page.app_id@ == settings.app_id@,
        SettingField::LogLevel => page.log_level == settings.log_level,
        SettingField::Theme => page.theme == settings.theme,
    }
}

/// A field is synchronized exactly when the page's value of it equals the
/// value in use, and the page is synchronized on every field exactly when
/// all three values are equal.
pub proof fn lemma_field_synchronized(page: SettingsPage, settings: RuntimeSettings)
    ensures
        field_synchronized(page, settings, SettingField::AppId) <==> page.app_id@ == settings.app_id@,
        field_synchronized(page, settings, SettingField::LogLevel) <==> page.log_level == settings.log_level,
        field_synchronized(page, settings, SettingField::Theme) <==> page.theme == settings.theme,
        (forall|f: SettingField| field_synchronized(page, settings, f)) <==> (page.app_id@ == settings.app_id@
            && page.log_level == settings.log_level && page.theme == settings.theme),
{
    if page.app_id@ == settings.app_id@ && page.log_level == settings.log_level && page.theme == settings.theme {
        assert forall|f: SettingField| field_synchronized(page, settings, f) by {
            match f {
                SettingField::AppId => {},
                SettingField::LogLevel => {},
                SettingField::Theme => {},
            }
        }
    }
    if forall|f: SettingField| field_synchronized(page, settings, f) {
        assert(field_synchronized(page, settings, SettingField::AppId));
        assert(field_synchronized(page, settings, SettingField::LogLevel));
        assert(field_synchronized(page, settings, SettingField::Theme));
    }
}

impl SettingsPage {
    /// A page that shows the settings in use.
    pub fn new(settings: &RuntimeSettings) -> (p: SettingsPage)
        ensures
            p.app_id@ == settings.app_id@,
            p.log_level == settings.log_level,
            p.theme == settings.theme,
    {
        SettingsPage { app_id: settings.app_id.clone(), log_level: settings.log_level, theme: settings.theme }
    }

    /// Whether the page shows the value in use for `field`.
    pub fn is_synchronized(&self, settings: &RuntimeSettings, field: SettingField) -> (b: bool)
        ensures
            b == field_synchronized(*self, *settings, field),
            field == SettingField::AppId ==> (b <==> self.app_id@ == settings.app_id@),
            field == SettingField::LogLevel ==> (b <==> self.log_level == settings.log_level),
            field == SettingField::Theme ==> (b <==> self.theme == settings.theme),
    {
        match field {
            SettingField::AppId => self.app_id == settings.app_id,
            SettingField::LogLevel => self.log_level == settings.log_level,
            SettingField::Theme => self.theme == settings.theme,
        }
    }

    /// Puts the value in use for `field` back on the page; the other
    /// fields stay as they are.
    pub fn revert(&mut self, settings: &RuntimeSettings, field: SettingField)
        ensures
            field_synchronized(*final(self), *settings, field),
            field == SettingField::AppId ==> final(self).app_id@ == settings.app_id@,
            field == SettingField::LogLevel ==> final(self).log_level == settings.log_level,
            field == SettingField::Theme ==> final(self).theme == settings.theme,
            field != SettingField::AppId ==> final(self).app_id == old(self).app_id,
            field != SettingField::LogLevel ==> final(self).log_level == old(self).log_level,
            field != SettingField::Theme ==> final(self).theme == old(self).theme,
    {
        match field {
            SettingField::AppId => {
                self.app_id = settings.app_id.clone();
            },
            SettingField::LogLevel => {
                self.log_level = settings.log_level;
            },
            SettingField::Theme => {
                self.theme = settings.theme;
            },
        }
    }

    /// Makes the page's values the settings in use.
    pub fn save(&self, settings: &mut RuntimeSettings)
        ensures
            final(settings).app_id@ == self.app_id@,
            final(settings).log_level == self.log_level,
            final(settings).theme == self.theme,
            forall|f: SettingField| field_synchronized(*self, *final(settings), f),
    {
        settings.app_id = self.app_id.clone();
        settings.log_level = self.log_level;
        settings.theme = self.theme;
    }
}

} // verus!
