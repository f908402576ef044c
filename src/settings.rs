//! The server's configuration, as read from its configuration file.
use vstd::prelude::*;

verus! {

#[derive(Debug, Clone)]
pub struct Settings {
    pub server: ServerConfig,
    pub database: DatabaseConfig,
    pub library: LibraryConfig,
    pub key: String,
}

#[derive(Debug, Clone)]
pub struct ServerConfig {
    pub host: String,
    pub port: u16,
}

#[derive(Debug, Clone)]
pub struct DatabaseConfig {
    pub file: String,
}

#[derive(Debug, Clone)]
pub struct LibraryConfig {
    pub path: String,
}

} // verus!
