pub mod about_window;
pub mod data_window;
pub mod game_settings_window;
pub mod log_window;
