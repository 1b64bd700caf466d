//! Keeping Discord channels up to date about streams.

pub mod cache;
pub mod connection;
pub mod embed;
pub mod format;
pub mod info;
pub mod messaging;
pub mod pairs;
pub mod reconcile;
pub mod update;
