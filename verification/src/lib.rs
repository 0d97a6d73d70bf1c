//! Persistence and keep-alive core of a collaborative text-editing server.

pub mod config;
pub mod database;
pub mod decimal;
pub mod document;
pub mod driver;
pub mod keepalive;
pub mod table;
