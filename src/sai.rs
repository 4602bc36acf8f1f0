//! The vendor switch API as seen from the control plane: status codes, object
//! types, tagged attribute values and the attribute lists each call sends.
use vstd::prelude::*;
use crate::error::RacoonError;
use crate::text::{dec_text, push_decimal, push_str};
use crate::types::{SaiOid, VlanId};

verus! {

pub const SAI_STATUS_SUCCESS: i32 = 0;
pub const SAI_STATUS_FAILURE: i32 = -1;
pub const SAI_STATUS_NOT_SUPPORTED: i32 = -2;
pub const SAI_STATUS_NO_MEMORY: i32 = -3;
pub const SAI_STATUS_INSUFFICIENT_RESOURCES: i32 = -4;
pub const SAI_STATUS_INVALID_PARAMETER: i32 = -5;
pub const SAI_STATUS_ITEM_ALREADY_EXISTS: i32 = -6;
pub const SAI_STATUS_ITEM_NOT_FOUND: i32 = -7;
pub const SAI_STATUS_BUFFER_OVERFLOW: i32 = -8;
pub const SAI_STATUS_INVALID_PORT_NUMBER: i32 = -9;
pub const SAI_STATUS_INVALID_PORT_MEMBER: i32 = -10;
pub const SAI_STATUS_INVALID_VLAN_ID: i32 = -11;
pub const SAI_STATUS_UNINITIALIZED: i32 = -12;
pub const SAI_STATUS_TABLE_FULL: i32 = -13;
pub const SAI_STATUS_MANDATORY_ATTRIBUTE_MISSING: i32 = -14;
pub const SAI_STATUS_NOT_IMPLEMENTED: i32 = -15;
pub const SAI_STATUS_ADDR_NOT_FOUND: i32 = -16;
pub const SAI_STATUS_OBJECT_IN_USE: i32 = -17;
pub const SAI_STATUS_INVALID_OBJECT_TYPE: i32 = -18;
pub const SAI_STATUS_INVALID_OBJECT_ID: i32 = -19;
pub const SAI_STATUS_INVALID_NV_STORAGE: i32 = -20;
pub const SAI_STATUS_NV_STORAGE_FULL: i32 = -21;
pub const SAI_STATUS_INVALID_ATTRIBUTE_0: i32 = -65536;

/// Attribute ids of the calls this library composes.
pub const SAI_VLAN_ATTR_VLAN_ID: i32 = 0;
pub const SAI_VLAN_MEMBER_ATTR_VLAN_ID: i32 = 0;
pub const SAI_VLAN_MEMBER_ATTR_BRIDGE_PORT_ID: i32 = 1;
pub const SAI_VLAN_MEMBER_ATTR_VLAN_TAGGING_MODE: i32 = 2;
pub const SAI_FDB_ENTRY_ATTR_TYPE: i32 = 0;
pub const SAI_FDB_ENTRY_ATTR_PACKET_ACTION: i32 = 1;
pub const SAI_FDB_ENTRY_ATTR_BRIDGE_PORT_ID: i32 = 3;
pub const SAI_PACKET_ACTION_FORWARD: i32 = 1;
pub const SAI_LAG_MEMBER_ATTR_LAG_ID: i32 = 0;
pub const SAI_LAG_MEMBER_ATTR_PORT_ID: i32 = 1;

/// A status returned by a vendor call. The listed statuses have variants of
/// their own; `Other` carries any other code.
#[allow(non_camel_case_types)]
#[derive(Debug, Clone, Copy, PartialEq, Eq, Structural)]
pub enum SaiStatus {
    SUCCESS,
    FAILURE,
    NOT_SUPPORTED,
    NO_MEMORY,
    INVALID_PARAMETER,
    ITEM_ALREADY_EXISTS,
    ITEM_NOT_FOUND,
    TABLE_FULL,
    Other(i32),
}

/// The code a status stands for.
pub open spec fn status_code(s: SaiStatus) -> i32 {
    match s {
        SaiStatus::SUCCESS => SAI_STATUS_SUCCESS,
        SaiStatus::FAILURE => SAI_STATUS_FAILURE,
        SaiStatus::NOT_SUPPORTED => SAI_STATUS_NOT_SUPPORTED,
        SaiStatus::NO_MEMORY => SAI_STATUS_NO_MEMORY,
        SaiStatus::INVALID_PARAMETER => SAI_STATUS_INVALID_PARAMETER,
        SaiStatus::ITEM_ALREADY_EXISTS => SAI_STATUS_ITEM_ALREADY_EXISTS,
        SaiStatus::ITEM_NOT_FOUND => SAI_STATUS_ITEM_NOT_FOUND,
        SaiStatus::TABLE_FULL => SAI_STATUS_TABLE_FULL,
        SaiStatus::Other(c) => c,
    }
}

/// The name of a status code, without its `SAI_` prefix.
pub open spec fn status_name(code: i32) -> Seq<char> {
    if code == SAI_STATUS_SUCCESS { "SUCCESS"@ }
    else if code == SAI_STATUS_FAILURE { "FAILURE"@ }
    else if code == SAI_STATUS_NOT_SUPPORTED { "NOT_SUPPORTED"@ }
    else if code == SAI_STATUS_NO_MEMORY { "NO_MEMORY"@ }
    else if code == SAI_STATUS_INSUFFICIENT_RESOURCES { "INSUFFICIENT_RESOURCES"@ }
    else if code == SAI_STATUS_INVALID_PARAMETER { "INVALID_PARAMETER"@ }
    else if code == SAI_STATUS_ITEM_ALREADY_EXISTS { "ITEM_ALREADY_EXISTS"@ }
    else if code == SAI_STATUS_ITEM_NOT_FOUND { "ITEM_NOT_FOUND"@ }
    else if code == SAI_STATUS_BUFFER_OVERFLOW { "BUFFER_OVERFLOW"@ }
    else if code == SAI_STATUS_INVALID_PORT_NUMBER { "INVALID_PORT_NUMBER"@ }
    else if code == SAI_STATUS_INVALID_PORT_MEMBER { "INVALID_PORT_MEMBER"@ }
    else if code == SAI_STATUS_INVALID_VLAN_ID { "INVALID_VLAN_ID"@ }
    else if code == SAI_STATUS_UNINITIALIZED { "UNINITIALIZED"@ }
    else if code == SAI_STATUS_TABLE_FULL { "TABLE_FULL"@ }
    else if code == SAI_STATUS_MANDATORY_ATTRIBUTE_MISSING { "MANDATORY_ATTRIBUTE_MISSING"@ }
    else if code == SAI_STATUS_NOT_IMPLEMENTED { "NOT_IMPLEMENTED"@ }
    else if code == SAI_STATUS_ADDR_NOT_FOUND { "ADDR_NOT_FOUND"@ }
    else if code == SAI_STATUS_OBJECT_IN_USE { "OBJECT_IN_USE"@ }
    else if code == SAI_STATUS_INVALID_OBJECT_TYPE { "INVALID_OBJECT_TYPE"@ }
    else if code == SAI_STATUS_INVALID_OBJECT_ID { "INVALID_OBJECT_ID"@ }
    else if code == SAI_STATUS_INVALID_NV_STORAGE { "INVALID_NV_STORAGE"@ }
    else if code == SAI_STATUS_NV_STORAGE_FULL { "NV_STORAGE_FULL"@ }
    else if code == SAI_STATUS_INVALID_ATTRIBUTE_0 { "INVALID_ATTRIBUTE_0"@ }
    else { "UNKNOWN_STATUS"@ }
}

/// The decimal text of a signed code.
pub open spec fn signed_dec_text(code: i32) -> Seq<char> {
    if code < 0 { seq!['-'] + dec_text((-code) as nat) } else { dec_text(code as nat) }
}

/// The readable form of a status: `SAI_<NAME> (<code>)`.
pub open spec fn status_text(code: i32) -> Seq<char> {
    "SAI_"@ + status_name(code) + " ("@ + signed_dec_text(code) + ")"@
}

/// `e` is the error that a failed status with this code becomes.
pub open spec fn is_status_error(e: RacoonError, code: i32) -> bool {
    e matches RacoonError::Sai(c, t) && c == code && t@ == status_text(code)
}

impl SaiStatus {
    /// The status for a raw code, using the named variant where there is one.
    pub fn from_code(code: i32) -> (r: SaiStatus)
        ensures
            status_code(r) == code,
            r is Other ==> code != SAI_STATUS_SUCCESS && code != SAI_STATUS_FAILURE
                && code != SAI_STATUS_NOT_SUPPORTED && code != SAI_STATUS_NO_MEMORY
                && code != SAI_STATUS_INVALID_PARAMETER && code != SAI_STATUS_ITEM_ALREADY_EXISTS
                && code != SAI_STATUS_ITEM_NOT_FOUND && code != SAI_STATUS_TABLE_FULL,
    {
        if code == SAI_STATUS_SUCCESS { SaiStatus::SUCCESS }
        else if code == SAI_STATUS_FAILURE { SaiStatus::FAILURE }
        else if code == SAI_STATUS_NOT_SUPPORTED { SaiStatus::NOT_SUPPORTED }
        else if code == SAI_STATUS_NO_MEMORY { SaiStatus::NO_MEMORY }
        else if code == SAI_STATUS_INVALID_PARAMETER { SaiStatus::INVALID_PARAMETER }
        else if code == SAI_STATUS_ITEM_ALREADY_EXISTS { SaiStatus::ITEM_ALREADY_EXISTS }
        else if code == SAI_STATUS_ITEM_NOT_FOUND { SaiStatus::ITEM_NOT_FOUND }
        else if code == SAI_STATUS_TABLE_FULL { SaiStatus::TABLE_FULL }
        else { SaiStatus::Other(code) }
    }

    /// The code this status stands for.
    pub fn code(&self) -> (r: i32)
        ensures
            r == status_code(*self),
    {
        match self {
            SaiStatus::SUCCESS => SAI_STATUS_SUCCESS,
            SaiStatus::FAILURE => SAI_STATUS_FAILURE,
            SaiStatus::NOT_SUPPORTED => SAI_STATUS_NOT_SUPPORTED,
            SaiStatus::NO_MEMORY => SAI_STATUS_NO_MEMORY,
            SaiStatus::INVALID_PARAMETER => SAI_STATUS_INVALID_PARAMETER,
            SaiStatus::ITEM_ALREADY_EXISTS => SAI_STATUS_ITEM_ALREADY_EXISTS,
            SaiStatus::ITEM_NOT_FOUND => SAI_STATUS_ITEM_NOT_FOUND,
            SaiStatus::TABLE_FULL => SAI_STATUS_TABLE_FULL,
            SaiStatus::Other(c) => *c,
        }
    }

    pub fn is_success(&self) -> (r: bool)
        ensures
            r == (status_code(*self) == SAI_STATUS_SUCCESS),
    {
        self.code() == SAI_STATUS_SUCCESS
    }

    pub fn is_error(&self) -> (r: bool)
        ensures
            r == (status_code(*self) != SAI_STATUS_SUCCESS),
    {
        !self.is_success()
    }

    /// The name of the status, without its `SAI_` prefix.
    pub fn name(&self) -> (r: &'static str)
        ensures
            r@ == status_name(status_code(*self)),
    {
        let c = self.code();
        if c == SAI_STATUS_SUCCESS { "SUCCESS" }
        else if c == SAI_STATUS_FAILURE { "FAILURE" }
        else if c == SAI_STATUS_NOT_SUPPORTED { "NOT_SUPPORTED" }
        else if c == SAI_STATUS_NO_MEMORY { "NO_MEMORY" }
        else if c == SAI_STATUS_INSUFFICIENT_RESOURCES { "INSUFFICIENT_RESOURCES" }
        else if c == SAI_STATUS_INVALID_PARAMETER { "INVALID_PARAMETER" }
        else if c == SAI_STATUS_ITEM_ALREADY_EXISTS { "ITEM_ALREADY_EXISTS" }
        else if c == SAI_STATUS_ITEM_NOT_FOUND { "ITEM_NOT_FOUND" }
        else if c == SAI_STATUS_BUFFER_OVERFLOW { "BUFFER_OVERFLOW" }
        else if c == SAI_STATUS_INVALID_PORT_NUMBER { "INVALID_PORT_NUMBER" }
        else if c == SAI_STATUS_INVALID_PORT_MEMBER { "INVALID_PORT_MEMBER" }
        else if c == SAI_STATUS_INVALID_VLAN_ID { "INVALID_VLAN_ID" }
        else if c == SAI_STATUS_UNINITIALIZED { "UNINITIALIZED" }
        else if c == SAI_STATUS_TABLE_FULL { "TABLE_FULL" }
        else if c == SAI_STATUS_MANDATORY_ATTRIBUTE_MISSING { "MANDATORY_ATTRIBUTE_MISSING" }
        else if c == SAI_STATUS_NOT_IMPLEMENTED { "NOT_IMPLEMENTED" }
        else if c == SAI_STATUS_ADDR_NOT_FOUND { "ADDR_NOT_FOUND" }
        else if c == SAI_STATUS_OBJECT_IN_USE { "OBJECT_IN_USE" }
        else if c == SAI_STATUS_INVALID_OBJECT_TYPE { "INVALID_OBJECT_TYPE" }
        else if c == SAI_STATUS_INVALID_OBJECT_ID { "INVALID_OBJECT_ID" }
        else if c == SAI_STATUS_INVALID_NV_STORAGE { "INVALID_NV_STORAGE" }
        else if c == SAI_STATUS_NV_STORAGE_FULL { "NV_STORAGE_FULL" }
        else if c == SAI_STATUS_INVALID_ATTRIBUTE_0 { "INVALID_ATTRIBUTE_0" }
        else { "UNKNOWN_STATUS" }
    }

    /// The readable form of the status, `SAI_<NAME> (<code>)`.
    pub fn to_string(&self) -> (r: String)
        ensures
            r@ == status_text(status_code(*self)),
    {
        let c = self.code();
        let mut out = String::new();
        push_str(&mut out, "SAI_");
        push_str(&mut out, self.name());
        push_str(&mut out, " (");
        if c < 0 {
            out.push('-');
            push_decimal(&mut out, (-(c as i64)) as u64);
        } else {
            push_decimal(&mut out, c as u64);
        }
        push_str(&mut out, ")");
        assert(out@ =~= status_text(c));
        out
    }

    /// `Ok` for success; otherwise the vendor error carrying this code.
    pub fn to_result(self) -> (r: Result<(), RacoonError>)
        ensures
            r is Ok <==> status_code(self) == SAI_STATUS_SUCCESS,
            r matches Err(e) ==> is_status_error(e, status_code(self)),
    {
        if self.is_success() {
            Ok(())
        } else {
            Err(RacoonError::Sai(self.code(), self.to_string()))
        }
    }
}

/// Kinds of hardware object.
#[derive(Debug, Clone, Copy, PartialEq, Eq, Hash, Structural)]
pub enum SaiObjectType {
    Switch,
    Port,
    Vlan,
    VlanMember,
    FdbEntry,
    Lag,
    LagMember,
    RouterInterface,
    RouteEntry,
    NeighborEntry,
    NextHop,
    NextHopGroup,
    Acl,
    Hostif,
    Queue,
    Scheduler,
    Buffer,
    Mirror,
}

/// The vendor's object-type number for each kind.
pub open spec fn object_type_code(t: SaiObjectType) -> u32 {
    match t {
        SaiObjectType::Switch => 33,
        SaiObjectType::Port => 1,
        SaiObjectType::Vlan => 38,
        SaiObjectType::VlanMember => 39,
        SaiObjectType::FdbEntry => 32,
        SaiObjectType::Lag => 2,
        SaiObjectType::LagMember => 27,
        SaiObjectType::RouterInterface => 6,
        SaiObjectType::RouteEntry => 37,
        SaiObjectType::NeighborEntry => 36,
        SaiObjectType::NextHop => 4,
        SaiObjectType::NextHopGroup => 5,
        SaiObjectType::Acl => 7,
        SaiObjectType::Hostif => 13,
        SaiObjectType::Queue => 21,
        SaiObjectType::Scheduler => 22,
        SaiObjectType::Buffer => 24,
        SaiObjectType::Mirror => 14,
    }
}

/// The short name of each kind.
pub open spec fn object_type_name(t: SaiObjectType) -> Seq<char> {
    match t {
        SaiObjectType::Switch => "SWITCH"@,
        SaiObjectType::Port => "PORT"@,
        SaiObjectType::Vlan => "VLAN"@,
        SaiObjectType::VlanMember => "VLAN_MEMBER"@,
        SaiObjectType::FdbEntry => "FDB_ENTRY"@,
        SaiObjectType::Lag => "LAG"@,
        SaiObjectType::LagMember => "LAG_MEMBER"@,
        SaiObjectType::RouterInterface => "ROUTER_INTERFACE"@,
        SaiObjectType::RouteEntry => "ROUTE_ENTRY"@,
        SaiObjectType::NeighborEntry => "NEIGHBOR_ENTRY"@,
        SaiObjectType::NextHop => "NEXT_HOP"@,
        SaiObjectType::NextHopGroup => "NEXT_HOP_GROUP"@,
        SaiObjectType::Acl => "ACL"@,
        SaiObjectType::Hostif => "HOSTIF"@,
        SaiObjectType::Queue => "QUEUE"@,
        SaiObjectType::Scheduler => "SCHEDULER"@,
        SaiObjectType::Buffer => "BUFFER"@,
        SaiObjectType::Mirror => "MIRROR"@,
    }
}

impl SaiObjectType {
    /// The vendor's object-type number.
    pub fn to_sai(&self) -> (r: u32)
        ensures
            r == object_type_code(*self),
    {
        match self {
            SaiObjectType::Switch => 33,
            SaiObjectType::Port => 1,
            SaiObjectType::Vlan => 38,
            SaiObjectType::VlanMember => 39,
            SaiObjectType::FdbEntry => 32,
            SaiObjectType::Lag => 2,
            SaiObjectType::LagMember => 27,
            SaiObjectType::RouterInterface => 6,
            SaiObjectType::RouteEntry => 37,
            SaiObjectType::NeighborEntry => 36,
            SaiObjectType::NextHop => 4,
            SaiObjectType::NextHopGroup => 5,
            SaiObjectType::Acl => 7,
            SaiObjectType::Hostif => 13,
            SaiObjectType::Queue => 21,
            SaiObjectType::Scheduler => 22,
            SaiObjectType::Buffer => 24,
            SaiObjectType::Mirror => 14,
        }
    }

    /// The kind of object an identifier names. The vendor's encoding of kinds
    /// in identifiers is not decoded: callers track the kind alongside the
    /// identifier, and every identifier is reported as a port.
    pub fn from_oid(_oid: SaiOid) -> (r: Option<Self>)
        ensures
            r == Some(SaiObjectType::Port),
    {
        Some(SaiObjectType::Port)
    }

    /// The short name of the kind, such as `VLAN_MEMBER`.
    pub fn name(&self) -> (r: &'static str)
        ensures
            r@ == object_type_name(*self),
    {
        match self {
            SaiObjectType::Switch => "SWITCH",
            SaiObjectType::Port => "PORT",
            SaiObjectType::Vlan => "VLAN",
            SaiObjectType::VlanMember => "VLAN_MEMBER",
            SaiObjectType::FdbEntry => "FDB_ENTRY",
            SaiObjectType::Lag => "LAG",
            SaiObjectType::LagMember => "LAG_MEMBER",
            SaiObjectType::RouterInterface => "ROUTER_INTERFACE",
            SaiObjectType::RouteEntry => "ROUTE_ENTRY",
            SaiObjectType::NeighborEntry => "NEIGHBOR_ENTRY",
            SaiObjectType::NextHop => "NEXT_HOP",
            SaiObjectType::NextHopGroup => "NEXT_HOP_GROUP",
            SaiObjectType::Acl => "ACL",
            SaiObjectType::Hostif => "HOSTIF",
            SaiObjectType::Queue => "QUEUE",
            SaiObjectType::Scheduler => "SCHEDULER",
            SaiObjectType::Buffer => "BUFFER",
            SaiObjectType::Mirror => "MIRROR",
        }
    }
}

/// The value of an attribute: one case per primitive of the vendor's union.
#[derive(Debug, Clone, PartialEq, Eq)]
pub enum SaiAttributeValue {
    Bool(bool),
    U8(u8),
    U16(u16),
    U32(u32),
    U64(u64),
    I32(i32),
    OidList(Vec<SaiOid>),
    Oid(SaiOid),
    MacAddress([u8; 6]),
    IpAddress([u8; 4]),
    Ipv6Address([u8; 16]),
}

/// An attribute: its id and its tagged value.
#[derive(Debug, Clone, PartialEq, Eq)]
pub struct SaiAttribute {
    pub id: i32,
    pub value: SaiAttributeValue,
}

impl SaiAttribute {
    pub fn new_bool(id: i32, value: bool) -> (r: Self)
        ensures
            r == (SaiAttribute { id, value: SaiAttributeValue::Bool(value) }),
    {
        SaiAttribute { id, value: SaiAttributeValue::Bool(value) }
    }

    pub fn new_u16(id: i32, value: u16) -> (r: Self)
        ensures
            r == (SaiAttribute { id, value: SaiAttributeValue::U16(value) }),
    {
        SaiAttribute { id, value: SaiAttributeValue::U16(value) }
    }

    pub fn new_u32(id: i32, value: u32) -> (r: Self)
        ensures
            r == (SaiAttribute { id, value: SaiAttributeValue::U32(value) }),
    {
        SaiAttribute { id, value: SaiAttributeValue::U32(value) }
    }

    pub fn new_u64(id: i32, value: u64) -> (r: Self)
        ensures
            r == (SaiAttribute { id, value: SaiAttributeValue::U64(value) }),
    {
        SaiAttribute { id, value: SaiAttributeValue::U64(value) }
    }

    pub fn new_i32(id: i32, value: i32) -> (r: Self)
        ensures
            r == (SaiAttribute { id, value: SaiAttributeValue::I32(value) }),
    {
        SaiAttribute { id, value: SaiAttributeValue::I32(value) }
    }

    pub fn new_oid(id: i32, value: SaiOid) -> (r: Self)
        ensures
            r == (SaiAttribute { id, value: SaiAttributeValue::Oid(value) }),
    {
        SaiAttribute { id, value: SaiAttributeValue::Oid(value) }
    }
}

/// VLAN member tagging mode, as the vendor numbers it.
#[derive(Debug, Clone, Copy, PartialEq, Eq, Structural)]
pub enum VlanTaggingMode {
    Untagged,
    Tagged,
    Priority,
}

/// The vendor's number for a tagging mode.
pub open spec fn tagging_mode_code(m: VlanTaggingMode) -> i32 {
    match m {
        VlanTaggingMode::Untagged => 0,
        VlanTaggingMode::Tagged => 1,
        VlanTaggingMode::Priority => 2,
    }
}

impl VlanTaggingMode {
    pub fn code(&self) -> (r: i32)
        ensures
            r == tagging_mode_code(*self),
    {
        match self {
            VlanTaggingMode::Untagged => 0,
            VlanTaggingMode::Tagged => 1,
            VlanTaggingMode::Priority => 2,
        }
    }
}

/// FDB entry type, as the vendor numbers it.
#[derive(Debug, Clone, Copy, PartialEq, Eq, Structural)]
pub enum FdbEntryType {
    Dynamic,
    Static,
}

/// The vendor's number for an FDB entry type.
pub open spec fn fdb_entry_type_code(t: FdbEntryType) -> i32 {
    match t {
        FdbEntryType::Dynamic => 0,
        FdbEntryType::Static => 1,
    }
}

impl FdbEntryType {
    pub fn code(&self) -> (r: i32)
        ensures
            r == fdb_entry_type_code(*self),
    {
        match self {
            FdbEntryType::Dynamic => 0,
            FdbEntryType::Static => 1,
        }
    }
}

/// The attributes of a VLAN create: its id.
pub fn vlan_create_attributes(vlan_id: VlanId) -> (r: Vec<SaiAttribute>)
    ensures
        r@ == seq![SaiAttribute { id: SAI_VLAN_ATTR_VLAN_ID, value: SaiAttributeValue::U16(vlan_id.value()) }],
{
    vec![SaiAttribute::new_u16(SAI_VLAN_ATTR_VLAN_ID, vlan_id.get())]
}

/// The attributes of a VLAN member create: the VLAN, the bridge port and the tagging mode.
pub fn vlan_member_attributes(vlan_oid: SaiOid, bridge_port_id: SaiOid, mode: VlanTaggingMode) -> (r: Vec<SaiAttribute>)
    ensures
        r@ == seq![
            SaiAttribute { id: SAI_VLAN_MEMBER_ATTR_VLAN_ID, value: SaiAttributeValue::Oid(vlan_oid) },
            SaiAttribute { id: SAI_VLAN_MEMBER_ATTR_BRIDGE_PORT_ID, value: SaiAttributeValue::Oid(bridge_port_id) },
            SaiAttribute { id: SAI_VLAN_MEMBER_ATTR_VLAN_TAGGING_MODE, value: SaiAttributeValue::I32(tagging_mode_code(mode)) },
        ],
{
    vec![
        SaiAttribute::new_oid(SAI_VLAN_MEMBER_ATTR_VLAN_ID, vlan_oid),
        SaiAttribute::new_oid(SAI_VLAN_MEMBER_ATTR_BRIDGE_PORT_ID, bridge_port_id),
        SaiAttribute::new_i32(SAI_VLAN_MEMBER_ATTR_VLAN_TAGGING_MODE, mode.code()),
    ]
}

/// The attributes of an FDB entry create: its type, the bridge port, and the
/// forward action.
pub fn fdb_entry_attributes(entry_type: FdbEntryType, bridge_port_id: SaiOid) -> (r: Vec<SaiAttribute>)
    ensures
        r@ == seq![
            SaiAttribute { id: SAI_FDB_ENTRY_ATTR_TYPE, value: SaiAttributeValue::I32(fdb_entry_type_code(entry_type)) },
            SaiAttribute { id: SAI_FDB_ENTRY_ATTR_BRIDGE_PORT_ID, value: SaiAttributeValue::Oid(bridge_port_id) },
            SaiAttribute { id: SAI_FDB_ENTRY_ATTR_PACKET_ACTION, value: SaiAttributeValue::I32(SAI_PACKET_ACTION_FORWARD) },
        ],
{
    vec![
        SaiAttribute::new_i32(SAI_FDB_ENTRY_ATTR_TYPE, entry_type.code()),
        SaiAttribute::new_oid(SAI_FDB_ENTRY_ATTR_BRIDGE_PORT_ID, bridge_port_id),
        SaiAttribute::new_i32(SAI_FDB_ENTRY_ATTR_PACKET_ACTION, SAI_PACKET_ACTION_FORWARD),
    ]
}

/// The attributes of a LAG member create: the LAG and the port.
pub fn lag_member_attributes(lag_id: SaiOid, port_id: SaiOid) -> (r: Vec<SaiAttribute>)
    ensures
        r@ == seq![
            SaiAttribute { id: SAI_LAG_MEMBER_ATTR_LAG_ID, value: SaiAttributeValue::Oid(lag_id) },
            SaiAttribute { id: SAI_LAG_MEMBER_ATTR_PORT_ID, value: SaiAttributeValue::Oid(port_id) },
        ],
{
    vec![
        SaiAttribute::new_oid(SAI_LAG_MEMBER_ATTR_LAG_ID, lag_id),
        SaiAttribute::new_oid(SAI_LAG_MEMBER_ATTR_PORT_ID, port_id),
    ]
}

/// The outcome of a vendor create: the identifier it wrote when the status is
/// success, the status otherwise.
pub fn creation_outcome(status: i32, oid: SaiOid) -> (r: Result<SaiOid, SaiStatus>)
    ensures
        status == SAI_STATUS_SUCCESS ==> r == Ok::<SaiOid, SaiStatus>(oid),
        status != SAI_STATUS_SUCCESS ==> (r matches Err(s) && status_code(s) == status),
{
    if status == SAI_STATUS_SUCCESS {
        Ok(oid)
    } else {
        Err(SaiStatus::from_code(status))
    }
}

} // verus!
