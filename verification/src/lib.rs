//! Versioned packet-handler registry with unified event normalization.
//!
//! Decoded game-protocol packets, together with the negotiated protocol
//! revision and the connection phase, are turned into ordered sequences of
//! version-independent events. Handlers are registered per
//! (version, phase, opcode) with duplicate detection, and all per-revision
//! reason codes collapse into one closed event vocabulary.

use vstd::prelude::*;

pub mod event;
pub mod laws;
pub mod normalize;
pub mod packet;
pub mod phase;
pub mod registry;
pub mod version_20120307;

verus! {

/// All supported packet versions.
#[derive(Debug, Clone, Copy, PartialEq, Eq, Structural)]
pub enum SupportedPacketVersion {
    _20220406,
    _20120307,
}

/// The characters of the version string of each supported revision.
pub open spec fn spec_version_str(v: SupportedPacketVersion) -> Seq<char> {
    match v {
        SupportedPacketVersion::_20220406 => "20220406"@,
        SupportedPacketVersion::_20120307 => "20120307"@,
    }
}

impl SupportedPacketVersion {
    /// Get the version string for packet header lookup.
    pub fn as_str(&self) -> (s: &'static str)
        ensures
            s@ == spec_version_str(*self),
    {
        match self {
            SupportedPacketVersion::_20220406 => "20220406",
            SupportedPacketVersion::_20120307 => "20120307",
        }
    }
}

} // verus!
