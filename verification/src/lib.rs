//! Tells Discord channels when the Twitch streamers they follow go live.

pub mod config;
pub mod discord;
pub mod maps;
pub mod text;
pub mod time;
pub mod twitch;
pub mod url;
pub mod util;
