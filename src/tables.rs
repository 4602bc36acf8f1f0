//! Table names of the state store.
use vstd::prelude::*;

verus! {

pub const VLAN: &'static str = "VLAN";
pub const VLAN_MEMBER: &'static str = "VLAN_MEMBER";
pub const PORT: &'static str = "PORT";
pub const LAG: &'static str = "LAG";
pub const LAG_MEMBER: &'static str = "LAG_MEMBER";
pub const INTERFACE: &'static str = "INTERFACE";
pub const VLAN_TABLE: &'static str = "VLAN_TABLE";
pub const VLAN_MEMBER_TABLE: &'static str = "VLAN_MEMBER_TABLE";
pub const PORT_TABLE: &'static str = "PORT_TABLE";
pub const LAG_TABLE: &'static str = "LAG_TABLE";
pub const LAG_MEMBER_TABLE: &'static str = "LAG_MEMBER_TABLE";
pub const FDB_TABLE: &'static str = "FDB_TABLE";
pub const ASIC_STATE: &'static str = "ASIC_STATE";
pub const PORT_STATE: &'static str = "PORT_STATE";
pub const VLAN_STATE: &'static str = "VLAN_STATE";
pub const COUNTERS: &'static str = "COUNTERS";
pub const RATES: &'static str = "RATES";

/// The hardware object-type token of VLAN records.
pub const SAI_OBJECT_TYPE_VLAN: &'static str = "SAI_OBJECT_TYPE_VLAN";

/// The channel that announces configuration changes of VLANs.
pub const CONFIG_VLAN_CHANNEL: &'static str = "CONFIG_DB:VLAN";

} // verus!
