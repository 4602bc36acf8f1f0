//! The state store's schema: logical databases, record shapes and store errors.
use vstd::prelude::*;
use std::collections::HashMap;

verus! {

/// A logical database: an independent key space of the state store.
#[derive(Debug, Clone, Copy, PartialEq, Eq, Hash, Structural)]
pub enum Database {
    /// User configuration.
    Config,
    /// Application state.
    Appl,
    /// Hardware programming state.
    Asic,
    /// Runtime state and status.
    State,
    /// Statistics and counters.
    Counters,
}

/// The store's number for each logical database.
pub open spec fn database_number(db: Database) -> i64 {
    match db {
        Database::Config => 4,
        Database::Appl => 0,
        Database::Asic => 1,
        Database::State => 6,
        Database::Counters => 2,
    }
}

impl Database {
    pub fn id(&self) -> (r: i64)
        ensures
            r == database_number(*self),
    {
        match self {
            Database::Config => 4,
            Database::Appl => 0,
            Database::Asic => 1,
            Database::State => 6,
            Database::Counters => 2,
        }
    }
}

/// VLAN configuration record (configuration database).
#[derive(Debug, Clone, PartialEq, Eq)]
pub struct VlanConfig {
    pub vlanid: u16,
    pub description: Option<String>,
}

/// Normalized VLAN record (application database): the same shape as the configuration.
#[derive(Debug, Clone, PartialEq, Eq)]
pub struct VlanEntry {
    pub vlanid: u16,
    pub description: Option<String>,
}

/// Realized VLAN record (hardware database): the id and the hardware identifier
/// in `0x` hexadecimal form.
#[derive(Debug, Clone, PartialEq, Eq)]
pub struct VlanAsicState {
    pub vlanid: u16,
    pub oid: String,
}

/// VLAN member configuration record.
#[derive(Debug, Clone, PartialEq, Eq)]
pub struct VlanMemberConfig {
    /// `tagged` or `untagged`.
    pub tagging_mode: String,
}

/// Port configuration record.
#[derive(Debug, Clone, PartialEq, Eq)]
pub struct PortConfig {
    /// Speed in Mbps, as decimal text.
    pub speed: Option<String>,
    pub mtu: Option<u32>,
    /// `up` or `down`.
    pub admin_status: Option<String>,
    pub alias: Option<String>,
    pub description: Option<String>,
}

/// LAG configuration record.
#[derive(Debug, Clone, PartialEq, Eq)]
pub struct LagConfig {
    pub mtu: Option<u32>,
    pub admin_status: Option<String>,
}

/// FDB record (application database).
#[derive(Debug, Clone, PartialEq, Eq)]
pub struct FdbEntry {
    pub port: String,
    /// `static` or `dynamic`.
    pub entry_type: String,
}

/// Port runtime state record.
#[derive(Debug, Clone, PartialEq, Eq)]
pub struct PortState {
    /// `up` or `down`.
    pub oper_status: String,
    pub speed: Option<String>,
    pub mtu: Option<u32>,
}

/// Counter record: counter name to value.
#[derive(Debug, Clone)]
pub struct Counters {
    pub values: HashMap<String, u64>,
}

/// A failed state-store operation.
#[derive(Debug, Clone, PartialEq, Eq)]
pub enum DbError {
    Connection(String),
    Serialization(String),
    NotFound(String),
    InvalidFormat(String),
    Operation(String),
}

/// Result of a state-store operation.
pub type DbResult<T> = core::result::Result<T, DbError>;

} // verus!
