pub mod adb;
pub mod app_state;
pub mod audio_api;
pub mod backends;
pub mod battery_monitor;
pub mod command_parser;
pub mod dev;
pub mod env_map;
pub mod logging;
pub mod models;
pub mod number;
pub mod overlay;
pub mod paths;
pub mod perf;
pub mod routes;
pub mod session_laws;
pub mod steam;
pub mod text;
