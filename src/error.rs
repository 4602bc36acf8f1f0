//! The error taxonomy shared by every component.
use vstd::prelude::*;

verus! {

/// An error of the control plane.
#[derive(Debug, Clone, PartialEq, Eq)]
pub enum RacoonError {
    /// A vendor call failed: its status code and a readable form of it.
    Sai(i32, String),
    Database(String),
    Config(String),
    PortNotFound(String),
    VlanExists(u16),
    VlanNotFound(u16),
    InvalidVlanId(u16),
    FdbNotFound(String),
    LagNotFound(String),
    InvalidMacAddress(String),
    DependencyNotSatisfied(String),
    OidNotFound(String),
    InvalidAttribute(String),
    LibraryLoad(String),
    Io(String),
    Serialization(String),
    TomlParse(String),
    Internal(String),
}

/// Result of a control-plane operation.
pub type Result<T> = core::result::Result<T, RacoonError>;

} // verus!
