//! The requests the chat service accepts, one module per area.

pub mod agents;
pub mod agent_config;
pub mod roles;
pub mod servers;
pub mod system;
pub mod templates;
pub mod audit_log;
pub mod rooms;
pub mod timeouts;
pub mod messages;
pub mod private_rooms;
pub mod server_setup;
pub mod forums;
pub mod user_bus;
pub mod swarm;
pub mod personal;
pub mod users;
pub mod content;
pub mod timed;
pub mod community;
pub mod structure;
pub mod threads;
pub mod sessions;
pub mod agent_removal;
pub mod bot_placement;
pub mod index_backfill;
pub mod dm_migration;
