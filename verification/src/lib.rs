//! Pooled, authenticated connections to a database: the configuration of an
//! endpoint, the protocol by which a connection is set up and re-validated, and
//! the settings handed to the pool that holds the connections.

pub mod config;
pub mod error;
pub mod manager;
pub mod pool;
pub mod text;
pub mod time;

pub use crate::config::{Config, ConfigBuilder, Credentials};
pub use crate::error::Error;
pub use crate::manager::Manager;
