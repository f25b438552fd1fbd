//! Tests for the settings, the log panel state, and the window states.

use esplugin::logger::{LevelFilter, Logger, LOG_CAPACITY};
use esplugin::settings::Settings;
use esplugin::ui::about_window::AboutWindow;
use esplugin::ui::data_window::DataWindow;
use esplugin::ui::game_settings_window::GameSettingsWindow;
use esplugin::ui::log_window::LogWindow;

#[test]
fn default() {
    let settings = Settings::default();
    assert_eq!(settings.data_path.as_str(), "/Data/");
}

#[test]
fn settings_prefer_the_configured_path() {
    let settings = Settings::from_data_path(Some("/Mods/".to_string()));
    assert_eq!(settings.data_path.as_str(), "/Mods/");
    let settings = Settings::from_data_path(None);
    assert_eq!(settings.data_path.as_str(), "/Data/");
}

#[test]
fn logger_filters_by_severity() {
    let mut logger = Logger::new();
    assert_eq!(logger.level, LevelFilter::Warn);
    assert!(logger.enabled(LevelFilter::Error));
    assert!(!logger.enabled(LevelFilter::Debug));
    logger.filter(LevelFilter::Debug);
    assert!(logger.enabled(LevelFilter::Debug));
    assert!(!logger.enabled(LevelFilter::Trace));
}

#[test]
fn logger_tracks_updates_and_evicts_old_lines() {
    let mut logger = Logger::new();
    assert!(!logger.updated());
    logger.push_line("first".to_string());
    assert!(logger.updated());
    logger.set_updated(false);
    assert!(!logger.updated());

    for i in 0..LOG_CAPACITY + 1 {
        logger.push_line(format!("line {}", i));
    }
    assert_eq!(logger.lines.len(), LOG_CAPACITY + 1);
    // The very first line was evicted when the buffer ran over.
    assert_eq!(logger.lines[0], "line 0");
}

#[test]
fn data_window_collects_files() {
    let mut window = DataWindow::new();
    window.add_file("Base.esm".to_string());
    window.add_file("Patch.esp".to_string());
    assert_eq!(window.data_files, vec!["Base.esm".to_string(), "Patch.esp".to_string()]);
}

#[test]
fn game_settings_window_collects_entries() {
    let mut window = GameSettingsWindow::new();
    window.add_entry("fJumpHeightMin".to_string());
    assert_eq!(window.entries.len(), 1);
}

#[test]
fn log_window_builder_sets_scroll() {
    let window = LogWindow::new(vec!["a".to_string()]).scroll(true);
    assert!(window.scroll);
    assert_eq!(window.lines.len(), 1);
    let _about = AboutWindow::new();
}
