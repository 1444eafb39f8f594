//! Core of a chat-channel chess service: a hierarchical permission and
//! settings store, a per-channel game-session state machine driven by an
//! external rules engine, and per-user lifetime statistics.

pub mod config;
pub mod engine;
pub mod events;
pub mod perm;
pub mod registry;
pub mod service;
pub mod session;
pub mod stats;
pub mod strtable;
pub mod text;
