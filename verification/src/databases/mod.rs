//! Database connections: how they are pooled and handed out.

pub mod account;
pub mod config;
pub mod connection;

pub use config::{Config, Error};
pub use connection::{Connection, ConnectionPool};
