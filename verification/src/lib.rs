//! Verified core of the telemt administration bot: callback payloads,
//! wizard states, text rendering, configuration rules and the decisions
//! behind monitoring and registration.

pub mod text;
pub mod callback_data;
pub mod wizard;
pub mod runtime;
pub mod config;
pub mod telemt;
pub mod monitor;
pub mod db;
pub mod format;
pub mod shared;
pub mod commands;
pub mod menu;
pub mod access;
pub mod callbacks;
pub mod screens;
pub mod panel;
pub mod keyboards;
pub mod users;
pub mod state;
