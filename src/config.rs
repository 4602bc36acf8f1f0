//! Daemon configuration: the shape of the configuration file and the defaults
//! of its optional fields.
use vstd::prelude::*;
use std::collections::HashMap;

verus! {

#[derive(Debug, Clone)]
pub struct Config {
    pub platform: PlatformConfig,
    pub database: DatabaseConfig,
    pub logging: LoggingConfig,
    pub services: ServicesConfig,
    pub management: ManagementConfig,
    pub features: FeaturesConfig,
}

#[derive(Debug, Clone)]
pub struct PlatformConfig {
    pub name: String,
    pub sai_library: String,
    pub config_db_path: String,
}

#[derive(Debug, Clone)]
pub struct DatabaseConfig {
    pub host: String,
    pub port: u16,
    pub socket: String,
}

#[derive(Debug, Clone)]
pub struct LoggingConfig {
    pub level: String,
    pub format: String,
    pub output: String,
}

#[derive(Debug, Clone)]
pub struct ServicesConfig {
    pub enabled: Vec<String>,
}

#[derive(Debug, Clone)]
pub struct ManagementConfig {
    pub rest_api_port: u16,
    pub cli_socket: String,
}

#[derive(Debug, Clone, Copy, PartialEq, Eq)]
pub struct FeaturesConfig {
    pub warm_boot: bool,
    pub fast_reboot: bool,
}

impl Default for FeaturesConfig {
    fn default() -> (r: FeaturesConfig)
        ensures
            !r.warm_boot && !r.fast_reboot,
    {
        FeaturesConfig { warm_boot: false, fast_reboot: false }
    }
}

#[derive(Debug, Clone)]
pub struct HardwareConfig {
    pub port_count: u32,
    pub port_lanes: u32,
    pub max_speed: u32,
    pub buffer_size: u64,
}

#[derive(Debug, Clone)]
pub struct CapabilitiesConfig {
    pub max_vlans: u32,
    pub max_fdb_entries: u32,
    pub max_routes: u32,
    pub max_ecmp_groups: u32,
}

#[derive(Debug, Clone)]
pub struct PlatformDetailsConfig {
    pub name: String,
    pub asic_type: String,
    pub sai_library: String,
    pub hardware: HardwareConfig,
    pub port_mapping: HashMap<String, (u32, u32)>,
    pub capabilities: CapabilitiesConfig,
}

pub fn default_config_db_path() -> (r: String)
    ensures
        r@ == "/etc/racoon/config_db.json"@,
{
    String::from_str("/etc/racoon/config_db.json")
}

pub fn default_db_host() -> (r: String)
    ensures
        r@ == "127.0.0.1"@,
{
    String::from_str("127.0.0.1")
}

pub fn default_db_port() -> (r: u16)
    ensures
        r == 6379,
{
    6379
}

pub fn default_db_socket() -> (r: String)
    ensures
        r@ == "/var/run/racoon/database.sock"@,
{
    String::from_str("/var/run/racoon/database.sock")
}

pub fn default_log_level() -> (r: String)
    ensures
        r@ == "info"@,
{
    String::from_str("info")
}

pub fn default_log_format() -> (r: String)
    ensures
        r@ == "json"@,
{
    String::from_str("json")
}

pub fn default_log_output() -> (r: String)
    ensures
        r@ == "/var/log/racoon/racoon.log"@,
{
    String::from_str("/var/log/racoon/racoon.log")
}

pub fn default_rest_port() -> (r: u16)
    ensures
        r == 8080,
{
    8080
}

pub fn default_cli_socket() -> (r: String)
    ensures
        r@ == "/var/run/racoon/cli.sock"@,
{
    String::from_str("/var/run/racoon/cli.sock")
}

} // verus!
