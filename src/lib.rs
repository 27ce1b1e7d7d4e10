//! Supervision logic for a long-running game server: incident escalation,
//! control-channel session decisions, the backup protocol, incident mail
//! digests and the shutdown sequence.
pub mod backup;
pub mod cmd_utils;
pub mod command;
pub mod config;
pub mod escalation;
pub mod mail;
pub mod rcon;
pub mod server;
pub mod text;
