//! Following streamers on Twitch.

pub mod client;
pub mod event;
pub mod look;
pub mod runner;
pub mod setup;
pub mod types;
pub mod util;
pub mod websocket;
