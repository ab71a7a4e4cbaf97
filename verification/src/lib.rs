//! The catalogue, scanning and playback rules of a video library.

pub mod commands;
pub mod database;
pub mod double;
pub mod encoding;
pub mod fresh;
pub mod json;
pub mod models;
pub mod paths;
pub mod platform;
pub mod playback;
pub mod player;
pub mod process;
pub mod progress;
pub mod scanner;
pub mod text;
pub mod vlc;
pub mod wrapping;
