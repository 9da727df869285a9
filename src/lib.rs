//! Dialogue core of a menu-driven notice bot: commands, menus, roles,
//! subscription groups and the conversation state machine.
mod text;
pub mod error;
pub mod config;
pub mod role;
pub mod table;
pub mod user;
pub mod subscription;
pub mod links;
pub mod loc;
pub mod keyboard;
pub mod command;
pub mod menu;
pub mod group_menu;
pub mod grant_access;
pub mod request_access;
pub mod db;
pub mod states;
pub mod notice;
pub mod subscribe;
pub mod help;
pub mod dispatch;
pub mod callback;
pub mod general;

pub use text::{same_text, strip_slash};
