//! Control-plane library for a switch operating system: value types, state-store
//! schema, vendor switch-API status and attribute handling, and the two
//! reconcilers that carry VLAN intent from configuration to hardware.

mod text;

pub mod config;
pub mod error;
pub mod keys;
pub mod notify;
pub mod orch;
pub mod sai;
pub mod schema;
pub mod sync;
pub mod tables;
mod tracking;
pub mod types;

pub use error::{RacoonError, Result};
pub use orch::{VlanOrch, VlanOrchStats};
pub use sai::{SaiAttribute, SaiAttributeValue, SaiObjectType, SaiStatus};
pub use schema::{Database, DbError, VlanAsicState, VlanConfig, VlanEntry};
pub use sync::{VlanSync, VlanSyncStats};
pub use types::{
    FdbEntryType, MacAddress, MacParseError, PortAdminStatus, PortOperStatus, PortSpeed, SaiOid,
    VlanId, VlanTaggingMode,
};
