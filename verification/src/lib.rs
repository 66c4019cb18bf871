//! Switch wear monitoring: chatter classification of controller buttons and
//! the bookkeeping of lifetime and per-session usage statistics.

pub mod backends;
pub mod bindings;
pub mod commands;
pub mod config;
pub mod detector;
pub mod invariants;
pub mod key_map;
pub mod keys;
pub mod listing;
pub mod monitor;
pub mod polling;
pub mod presets;
pub mod profile;
pub mod service;
pub mod session;
pub mod snapshot;
pub mod stats;
pub mod switches;
pub mod text;
pub mod time;
