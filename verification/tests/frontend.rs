use xstatistics::backend::input::Input;
use xstatistics::frontend::config::{Config, Theme};
use xstatistics::frontend::context::{RuntimeSettings, UiState};
use xstatistics::frontend::logs::{LogLevel, Logger};
use xstatistics::frontend::pages::{InputError, MainPage, Page, SettingField, SettingsPage};
use xstatistics::text::IntErrorKind;

fn page(a: &str, b: &str) -> MainPage {
    let mut p = MainPage::default();
    p.a = a.to_string();
    p.b = b.to_string();
    p
}

#[test]
fn default_config() {
    let c = Config::default();
    assert_eq!(c.app_id, "");
    assert_eq!(c.log_level, LogLevel::Off);
    assert_eq!(c.theme, Theme::Dark);
    assert_eq!(LogLevel::default(), LogLevel::Off);
}

#[test]
fn settings_round_trip() {
    let c = Config { app_id: "ABC-123".to_string(), log_level: LogLevel::Info, theme: Theme::System };
    let s = RuntimeSettings::from(&c);
    assert_eq!(s.app_id, "ABC-123");
    assert_eq!(s.log_level, LogLevel::Info);
    assert_eq!(s.theme, Theme::System);
    let back = Config::from(&s);
    assert_eq!(back.app_id, c.app_id);
    assert_eq!(back.log_level, c.log_level);
    assert_eq!(back.theme, c.theme);
}

#[test]
fn page_switching() {
    let mut ui = UiState::default();
    assert_eq!(ui.page, Page::Main);
    ui.switch_to_settings();
    assert_eq!(ui.page, Page::Settings);
    ui.switch_to_info();
    assert_eq!(ui.page, Page::Info);
    ui.switch_to_main();
    assert_eq!(ui.page, Page::Main);
    assert_eq!(Page::default(), Page::Main);
}

#[test]
fn valid_inputs() {
    assert_eq!(page("-2", "3").validate_inputs(), Ok(Input { a: -2, b: 3 }));
    assert_eq!(page("+1", "10").validate_inputs(), Ok(Input { a: 1, b: 10 }));
}

#[test]
fn input_errors() {
    assert_eq!(page("", "3").validate_inputs(), Err(InputError::Empty));
    assert_eq!(page("1", "").validate_inputs(), Err(InputError::Empty));
    assert_eq!(page("x", "3").validate_inputs(), Err(InputError::Parse(IntErrorKind::InvalidDigit)));
    assert_eq!(page("1", " 3").validate_inputs(), Err(InputError::Parse(IntErrorKind::InvalidDigit)));
    assert_eq!(
        page("1", "99999999999999999999").validate_inputs(),
        Err(InputError::Parse(IntErrorKind::PosOverflow))
    );
    assert_eq!(page("3", "3").validate_inputs(), Err(InputError::Order));
    assert_eq!(page("4", "-3").validate_inputs(), Err(InputError::Order));
}

#[test]
fn journal_lines() {
    let mut p = MainPage::default();
    p.push_journal("Requesting: Solve x = 1");
    p.push_journal("Solver result: OK");
    assert_eq!(p.journal_output, "Requesting: Solve x = 1\nSolver result: OK\n");
}

#[test]
fn logger_levels_and_file_names() {
    let mut c = Config::default();
    assert!(!Logger::from_config(&c).is_enabled());
    c.log_level = LogLevel::Debug;
    let l = Logger::from_config(&c);
    assert!(l.is_enabled());
    assert_eq!(l.log_level(), LogLevel::Debug);
    // Day before month, as the application has always named its logs.
    assert_eq!(Logger::file_name_for(2024, 3, 7), "2024-07-03.log");
    assert_eq!(Logger::file_name_for(987, 12, 31), "0987-31-12.log");
    assert_eq!(Logger::file_name_for(-5, 1, 1), "-005-01-01.log");
}

#[test]
fn settings_page_revert_and_save() {
    let mut settings = RuntimeSettings { app_id: "OLD".to_string(), log_level: LogLevel::Warn, theme: Theme::Light };
    let mut p = SettingsPage::new(&settings);
    assert!(p.is_synchronized(&settings, SettingField::AppId));
    assert!(p.is_synchronized(&settings, SettingField::LogLevel));
    assert!(p.is_synchronized(&settings, SettingField::Theme));
    p.app_id = "NEW".to_string();
    p.theme = Theme::Dark;
    assert!(!p.is_synchronized(&settings, SettingField::AppId));
    assert!(!p.is_synchronized(&settings, SettingField::Theme));
    p.revert(&settings, SettingField::AppId);
    assert_eq!(p.app_id, "OLD");
    assert_eq!(p.theme, Theme::Dark);
    p.app_id = "NEWER".to_string();
    p.save(&mut settings);
    assert_eq!(settings.app_id, "NEWER");
    assert_eq!(settings.theme, Theme::Dark);
    assert_eq!(settings.log_level, LogLevel::Warn);
    assert!(p.is_synchronized(&settings, SettingField::AppId));
    assert!(p.is_synchronized(&settings, SettingField::Theme));
}

#[test]
fn log_lines() {
    assert_eq!(
        Logger::format_line(2024, 3, 7, 9, 5, "INFO", "Generated report source code."),
        "[2024-03-07 09:05 INFO] Generated report source code."
    );
    assert_eq!(Logger::format_line(-5, 12, 31, 23, 59, "WARN", "x"), format!("[{:0>2}-12-31 23:59 WARN] x", -5));
    assert_eq!(Logger::format_line(5, 1, 1, 0, 0, "ERROR", ""), "[05-01-01 00:00 ERROR] ");
}

#[test]
fn request_key_is_trimmed() {
    let s = RuntimeSettings { app_id: "  ABC-123 \n".to_string(), log_level: LogLevel::Off, theme: Theme::Dark };
    assert_eq!(s.request_app_id(), "ABC-123");
}
