//! Protocols of Source dedicated servers.

pub mod rcon;
