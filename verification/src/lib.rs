//! Synchronised audiobook listening parties: the room bus, its access rules and
//! the decisions taken for each websocket message, with their contracts.
pub mod text;
pub mod models;
pub mod room;
pub mod hub;
pub mod session;
pub mod proxy;
pub mod config;
pub mod laws;
