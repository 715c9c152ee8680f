//! Static configuration, fixed when the process starts.

pub mod logging;

use vstd::prelude::*;

verus! {

/// Everything the service is configured with.
#[derive(Debug)]
pub struct AppConfig {
    pub server: ServerConfig,
    pub database: DatabaseConfig,
    pub jwt: JwtConfig,
    pub snowflake: SnowflakeConfig,
}

/// Where the service listens and which origin may call it.
#[derive(Debug)]
pub struct ServerConfig {
    pub host: String,
    pub port: u16,
    pub cors_origin: String,
}

/// How the database is reached.
#[derive(Debug)]
pub struct DatabaseConfig {
    pub url: String,
    pub max_connections: u32,
}

/// The signing secret and the lifetimes of tokens, in seconds.
#[derive(Debug, Clone)]
pub struct JwtConfig {
    pub secret: String,
    pub access_token_expires_in: i64,
    pub refresh_token_expires_in: i64,
}

/// The site identity of the identifier generator.
#[derive(Debug, Clone)]
pub struct SnowflakeConfig {
    pub datacenter_id: i64,
    pub machine_id: i64,
}

/// The datacenter id used where none is configured.
pub const DEFAULT_DATACENTER_ID: i64 = 1;

/// The machine id used where none is configured.
pub const DEFAULT_MACHINE_ID: i64 = 1;

impl Default for SnowflakeConfig {
    fn default() -> (config: Self)
        ensures
            config.datacenter_id == DEFAULT_DATACENTER_ID,
            config.machine_id == DEFAULT_MACHINE_ID,
    {
        Self { datacenter_id: DEFAULT_DATACENTER_ID, machine_id: DEFAULT_MACHINE_ID }
    }
}

impl ServerConfig {
    /// The origin allowed to call the service where none is configured.
    pub fn default_cors_origin() -> (origin: String)
        ensures
            origin@ == "http://localhost:3000"@,
    {
        "http://localhost:3000".to_owned()
    }
}

} // verus!
