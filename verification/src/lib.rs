//! Verified core of `bedrockd`, a wrapper daemon around a Minecraft Bedrock
//! dedicated server: configuration defaults, the backup schedule and its
//! archives, the parsing of the server's console output, the tracking of the
//! players online and the state of the terminal front end.
pub mod archive;
pub mod backup_cycle;
pub mod backup_manager;
pub mod cli;
pub mod config;
pub mod players;
pub mod rcon;
pub mod save_query;
pub mod schedule;
pub mod server_manager;
pub mod stdio;
pub mod text;
pub mod tui;
