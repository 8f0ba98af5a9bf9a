//! Configuration read at process start. The bootstrap code outside the
//! library deserializes its own copy of these records and converts; the
//! library only consumes the plain values.
use vstd::prelude::*;

verus! {

/// Which smart-home backend the adapter talks to.
pub enum SmartHomePlatform {
    SmartThings,
}

pub struct SmartThingsConfig {
    pub api_key: Option<String>,
}

pub struct SmartHomeConfig {
    pub platform: SmartHomePlatform,
    pub smartthings: SmartThingsConfig,
}

pub struct ControllerConfig {
    pub sync_interval_seconds: u64,
}

pub struct LogConfig {
    pub filters: String,
}

pub struct HealthCheckConfig {
    pub enable_server: bool,
    pub port: u16,
}

pub struct Config {
    pub smart_home: SmartHomeConfig,
    pub controller: ControllerConfig,
    pub log: LogConfig,
    pub health_check: HealthCheckConfig,
}

impl Default for SmartHomePlatform {
    fn default() -> (r: Self)
        ensures
            r is SmartThings,
    {
        SmartHomePlatform::SmartThings
    }
}

impl Default for SmartThingsConfig {
    fn default() -> (r: Self)
        ensures
            r.api_key is None,
    {
        SmartThingsConfig { api_key: None }
    }
}

impl Default for SmartHomeConfig {
    fn default() -> (r: Self)
        ensures
            r.platform is SmartThings,
            r.smartthings.api_key is None,
    {
        SmartHomeConfig {
            platform: SmartHomePlatform::SmartThings,
            smartthings: SmartThingsConfig { api_key: None },
        }
    }
}

} // verus!
