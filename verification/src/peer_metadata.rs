//! Identity metadata a node advertises at discovery time.
//!
//! The record is regenerated on every call — never cached — so it always
//! reflects the node's current configuration, and producing it cannot fail:
//! a missing configured name falls back to a default.

use vstd::prelude::*;

verus! {

/// The operating system a node reports about itself.
#[derive(Clone, Copy, PartialEq, Eq, Structural, Debug)]
pub enum OperatingSystem {
    Windows,
    Linux,
    MacOs,
    Ios,
    Android,
    Other,
}

/// The identity record advertised to the network.
#[derive(Debug)]
pub struct PeerMetadata {
    /// Human-readable display name of the node.
    pub name: String,
    /// The node's operating system, when it cares to report one.
    pub operating_system: Option<OperatingSystem>,
    /// The node's application version, when it cares to report one.
    pub version: Option<String>,
}

/// The display name used when the configuration gives none.
pub open spec fn spec_default_name() -> Seq<char> {
    "unnamed peer"@
}

/// Produce the identity record from the node's current configuration.  A
/// missing name falls back to the default; nothing here can fail.
pub fn provide(
    config_name: Option<String>,
    os: Option<OperatingSystem>,
    version: Option<String>,
) -> (m: PeerMetadata)
    ensures
        config_name matches Some(n) ==> m.name@ == n@,
        config_name is None ==> m.name@ == spec_default_name(),
        m.operating_system == os,
        m.version == version,
{
    let name = match config_name {
        Some(n) => n,
        None => "unnamed peer".to_owned(),
    };
    PeerMetadata { name, operating_system: os, version }
}

} // verus!
