//! Verified core of a real-time chat service: its tables, the rules that each
//! request ("reducer") checks, and the state change each one makes.

pub mod text;
pub mod tables;
pub mod store;
pub mod db;
pub mod context;
pub mod common;
pub mod reducers;
pub mod membership;
pub mod lookups;
pub mod permissions;
pub mod accounts;
pub mod json;
pub mod id_list;
pub mod unicode;
pub mod laws;
pub mod dm_cleanup_law;
pub mod swarm_repeat_law;
pub mod dm_repeat_law;
pub mod request_laws;
