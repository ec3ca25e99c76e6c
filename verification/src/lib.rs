//! Core of the teil.ing desktop client.

pub mod api;
pub mod auth;
pub mod capture;
pub mod capture_macos;
pub mod capture_windows;
pub mod commands;
pub mod effect;
pub mod geometry;
pub mod json;
pub mod laws;
pub mod mode;
pub mod picture;
pub mod popover;
pub mod prefs;
pub mod recording;
pub mod secure;
pub mod stamp;
pub mod teil_capture_windows;
pub mod text;
