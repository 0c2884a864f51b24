pub mod player_system;
pub mod logging_system;
pub mod draw_system;
