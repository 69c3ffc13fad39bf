//! Profiles of a game client's two configuration files, and the engine that
//! swaps them in when the client reports a champion selection.

pub mod app;
pub mod archive;
pub mod cfg;
pub mod champion;
pub mod config;
pub mod error;
pub mod fs;
pub mod game_settings;
pub mod ini_file;
pub mod message;
pub mod paste;
pub mod profile;
pub mod settings;
pub mod task;
pub mod text;
pub mod websocket;
