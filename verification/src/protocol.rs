use vstd::prelude::*;

verus! {

/// A player's or a boss bar's unique id, as its 128 bits.
pub type Uuid = u128;

/// A Minecraft protocol version, identified by its protocol number.
#[derive(Clone, Copy, Debug, PartialEq, Eq, Structural)]
pub struct ProtocolVersion {
    pub protocol: i32,
}

impl ProtocolVersion {
    /// Minecraft 1.8.
    #[verifier::allow_in_spec]
    pub fn v1_8() -> ProtocolVersion
        returns
            (ProtocolVersion { protocol: 47 }),
    {
        ProtocolVersion { protocol: 47 }
    }

    /// Minecraft 1.9.
    #[verifier::allow_in_spec]
    pub fn v1_9() -> ProtocolVersion
        returns
            (ProtocolVersion { protocol: 107 }),
    {
        ProtocolVersion { protocol: 107 }
    }

    /// Minecraft 1.11.
    #[verifier::allow_in_spec]
    pub fn v1_11() -> ProtocolVersion
        returns
            (ProtocolVersion { protocol: 315 }),
    {
        ProtocolVersion { protocol: 315 }
    }

    /// Minecraft 1.17.
    #[verifier::allow_in_spec]
    pub fn v1_17() -> ProtocolVersion
        returns
            (ProtocolVersion { protocol: 755 }),
    {
        ProtocolVersion { protocol: 755 }
    }

    /// Minecraft 1.20.5, the first version with the transfer packet.
    #[verifier::allow_in_spec]
    pub fn v1_20_5() -> ProtocolVersion
        returns
            (ProtocolVersion { protocol: 766 }),
    {
        ProtocolVersion { protocol: 766 }
    }

    /// Whether this version is `other` or a later one.
    pub open spec fn at_least(self, other: ProtocolVersion) -> bool {
        self.protocol >= other.protocol
    }

    /// Whether this version is `other` or a later one.
    pub fn is_after_inclusive(&self, other: ProtocolVersion) -> (b: bool)
        ensures
            b == self.at_least(other),
    {
        self.protocol >= other.protocol
    }
}

/// The state of a client connection.
#[derive(Clone, Copy, Debug, PartialEq, Eq, Structural)]
pub enum ConnectionState {
    Handshake,
    Status,
    Login,
    Configuration,
    Play,
}

} // verus!
