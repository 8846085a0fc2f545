//! The settings a rotation is started with.

use vstd::prelude::*;
use vstd::string::*;

verus! {

/// Everything read from the configuration file.
#[derive(Debug)]
pub struct Config {
    pub argo_cd: ArgoConfig,
    pub postgres: PostgresConfig,
    pub vault: VaultConfig,
}

/// Where the Argo CD application lives and how long to wait for it.
#[derive(Debug)]
pub struct ArgoConfig {
    pub application: String,
    pub base_url: String,
    pub danger_accept_insecure: Option<bool>,
    pub sync_timeout_seconds: Option<u16>,
}

/// The PostgreSQL instance whose roles are rotated.
#[derive(Debug)]
pub struct PostgresConfig {
    pub host: String,
    pub port: u16,
    pub database: String,
}

/// The Vault server and the path of the rotation secret inside it.
#[derive(Debug)]
pub struct VaultConfig {
    pub base_url: String,
    pub path: String,
}

impl Clone for ArgoConfig {
    fn clone(&self) -> (copy: Self)
        ensures
            copy == *self,
    {
        ArgoConfig {
            application: self.application.clone(),
            base_url: self.base_url.clone(),
            danger_accept_insecure: self.danger_accept_insecure,
            sync_timeout_seconds: self.sync_timeout_seconds,
        }
    }
}

impl Clone for PostgresConfig {
    fn clone(&self) -> (copy: Self)
        ensures
            copy == *self,
    {
        PostgresConfig {
            host: self.host.clone(),
            port: self.port,
            database: self.database.clone(),
        }
    }
}

impl Clone for VaultConfig {
    fn clone(&self) -> (copy: Self)
        ensures
            copy == *self,
    {
        VaultConfig { base_url: self.base_url.clone(), path: self.path.clone() }
    }
}

impl Default for ArgoConfig {
    fn default() -> (config: Self)
        ensures
            config.application@ == "propeller"@,
            config.base_url@ == "http://localhost:3100"@,
            config.danger_accept_insecure == Some(false),
            config.sync_timeout_seconds == Some(60u16),
    {
        ArgoConfig {
            application: String::from_str("propeller"),
            base_url: String::from_str("http://localhost:3100"),
            danger_accept_insecure: Some(false),
            sync_timeout_seconds: Some(60),
        }
    }
}

impl Default for PostgresConfig {
    fn default() -> (config: Self)
        ensures
            config.host@ == "localhost"@,
            config.port == 5432,
            config.database@ == "propeller"@,
    {
        PostgresConfig {
            host: String::from_str("localhost"),
            port: 5432,
            database: String::from_str("propeller"),
        }
    }
}

impl Default for VaultConfig {
    fn default() -> (config: Self)
        ensures
            config.base_url@ == "http://localhost:8200"@,
            config.path@ == "propeller"@,
    {
        VaultConfig {
            base_url: String::from_str("http://localhost:8200"),
            path: String::from_str("propeller"),
        }
    }
}

} // verus!
