//! Service settings, and those of the memory monitor with their defaults.

use crate::error::MemoryError;
use vstd::prelude::*;
use vstd::string::StringExecFns;

verus! {

/// Settings of the whole service.
#[derive(Debug, Clone)]
pub struct Config {
    pub mongo: MongoConfig,
    pub email: EmailConfig,
    pub oauth: OAuthConfig,
    pub memory: MemoryConfig,
}

/// Connection settings of the document database.
#[derive(Debug, Clone)]
pub struct MongoConfig {
    pub host: String,
    pub port: u16,
    pub user: Option<String>,
    pub password: Option<String>,
    pub database: String,
}

/// Settings of the outgoing mail server.
#[derive(Debug, Clone)]
pub struct EmailConfig {
    pub smtp_server: String,
    pub smtp_port: u16,
    pub username: String,
    pub password: String,
    pub from_address: String,
    pub from_name: String,
}

/// Settings of the OAuth login provider.
#[derive(Debug, Clone)]
pub struct OAuthConfig {
    pub qq_app_id: String,
    pub qq_app_key: String,
    pub redirect_uri: String,
}

/// Settings of the memory monitor.
#[derive(Debug, Clone, Copy, PartialEq, Eq, Structural)]
pub struct MemoryConfig {
    /// Usage in MB above which a global release is triggered.
    pub threshold_mb: u64,
    /// Base polling interval of the monitor, in seconds.
    pub check_interval_secs: u64,
    /// Least time between two releases, in seconds.
    pub gc_cooldown_secs: u64,
}

/// Threshold used when none is configured, in MB.
pub fn default_memory_threshold() -> (r: u64)
    ensures
        r == 500,
{
    500
}

/// Polling interval used when none is configured, in seconds.
pub fn default_check_interval() -> (r: u64)
    ensures
        r == 30,
{
    30
}

/// Release cooldown used when none is configured, in seconds.
pub fn default_gc_cooldown() -> (r: u64)
    ensures
        r == 30,
{
    30
}

impl Default for MemoryConfig {
    fn default() -> (r: Self)
        ensures
            r == (MemoryConfig { threshold_mb: 500, check_interval_secs: 30, gc_cooldown_secs: 30 }),
    {
        MemoryConfig {
            threshold_mb: default_memory_threshold(),
            check_interval_secs: default_check_interval(),
            gc_cooldown_secs: default_gc_cooldown(),
        }
    }
}

impl MemoryConfig {
    /// All three settings are positive.
    pub open spec fn is_valid(&self) -> bool {
        self.threshold_mb > 0 && self.check_interval_secs > 0 && self.gc_cooldown_secs > 0
    }

    /// Rejects a configuration with a zero setting.
    pub fn validate(&self) -> (r: Result<(), MemoryError>)
        ensures
            r is Ok <==> self.is_valid(),
            r is Err ==> r->Err_0 is InvalidConfig,
    {
        if self.threshold_mb == 0 {
            Err(MemoryError::InvalidConfig(String::from_str("threshold_mb must be positive")))
        } else if self.check_interval_secs == 0 {
            Err(MemoryError::InvalidConfig(String::from_str("check_interval_secs must be positive")))
        } else if self.gc_cooldown_secs == 0 {
            Err(MemoryError::InvalidConfig(String::from_str("gc_cooldown_secs must be positive")))
        } else {
            Ok(())
        }
    }
}

} // verus!
