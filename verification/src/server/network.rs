use crate::protocol::{ConnectionState, ProtocolVersion};
use crate::queue::PushAction;
use vstd::prelude::*;

verus! {

/// Why handling a client's packet failed.
#[derive(Debug, PartialEq, Eq)]
pub enum PacketProcessingError {
    /// The client is gone.
    Disconnected,
    /// No packet is known for this version, state and id.
    DecodePacketError(i32, ConnectionState, u8),
    /// Anything else, with its message.
    Custom(String),
}

/// How a pushed player is sent on.
#[derive(Debug, PartialEq, Eq)]
pub enum PushDelivery {
    /// Disconnect the player with this message.
    Kick(String),
    /// Send the transfer packet to this server.
    Transfer { host: String, port: i32 },
}

/// Whether `delivery` is how a player speaking `protocol_version` is sent on when
/// pushed with `action`: a transfer needs 1.20.5 or later, and an older client is
/// kicked with the fixed message instead.
pub open spec fn delivers(
    action: PushAction,
    protocol_version: ProtocolVersion,
    delivery: PushDelivery,
) -> bool {
    match action {
        PushAction::Kick(message) => delivery matches PushDelivery::Kick(m) && m@ == message@,
        PushAction::Transfer { host, port } => if protocol_version.at_least(
            ProtocolVersion::v1_20_5(),
        ) {
            delivery matches PushDelivery::Transfer { host: h, port: p } && h@ == host@ && p
                == port
        } else {
            delivery matches PushDelivery::Kick(m) && m@ == "You have been moved to the main server."@
        },
    }
}

/// How to send on a player who was pushed with `action`.
pub fn push_delivery(action: PushAction, protocol_version: ProtocolVersion) -> (delivery:
    PushDelivery)
    ensures
        delivers(action, protocol_version, delivery),
{
    match action {
        PushAction::Kick(message) => PushDelivery::Kick(message),
        PushAction::Transfer { host, port } => {
            if protocol_version.is_after_inclusive(ProtocolVersion::v1_20_5()) {
                PushDelivery::Transfer { host, port }
            } else {
                PushDelivery::Kick("You have been moved to the main server.".to_string())
            }
        },
    }
}

/// The disconnect packet of the state a client is kicked from.
#[derive(Debug, PartialEq, Eq)]
pub enum DisconnectPacket {
    Login(String),
    Configuration(String),
    Play(String),
}

/// The disconnect packet that kicks a client in `state` with `reason`; a client in
/// a state where no packet can be sent is only counted as disconnected.
pub fn kick_packet(state: ConnectionState, reason: String) -> (packet: Result<
    DisconnectPacket,
    PacketProcessingError,
>)
    ensures
        match state {
            ConnectionState::Login => packet matches Ok(DisconnectPacket::Login(r)) && r@
                == reason@,
            ConnectionState::Configuration => packet matches Ok(
                DisconnectPacket::Configuration(r),
            ) && r@ == reason@,
            ConnectionState::Play => packet matches Ok(DisconnectPacket::Play(r)) && r@
                == reason@,
            _ => packet matches Err(PacketProcessingError::Disconnected),
        },
{
    match state {
        ConnectionState::Login => Ok(DisconnectPacket::Login(reason)),
        ConnectionState::Configuration => Ok(DisconnectPacket::Configuration(reason)),
        ConnectionState::Play => Ok(DisconnectPacket::Play(reason)),
        _ => Err(PacketProcessingError::Disconnected),
    }
}

/// Whether a keep-alive is sent to a client in `state`: only in play.
pub fn keep_alive_due(state: ConnectionState) -> (due: bool)
    ensures
        due == (state == ConnectionState::Play),
{
    match state {
        ConnectionState::Play => true,
        _ => false,
    }
}


/// The kind of an I/O failure on a client's packet stream.
#[derive(Clone, Copy, Debug, PartialEq, Eq, Structural)]
pub enum StreamIoErrorKind {
    UnexpectedEof,
    ConnectionReset,
    Other,
}

/// A failure of a client's packet stream, with the text it is reported by.
#[derive(Debug, PartialEq, Eq)]
pub enum PacketStreamError {
    Io(StreamIoErrorKind, String),
    Other(String),
}

/// A failure of a packet handler.
#[derive(Debug, PartialEq, Eq)]
pub enum PacketHandlerError {
    /// A failure with its reason.
    Custom(String),
    /// The client sent a packet its state does not allow; with the reason, and
    /// whether it is worth a warning.
    InvalidState(String, bool),
}

/// A failure to decode a client's packet, with the text it is reported by.
#[derive(Debug, PartialEq, Eq)]
pub enum PacketRegistryDecodeError {
    /// No packet is known for this version, state and id.
    NoCorrespondingPacket(i32, ConnectionState, u8),
    Other(String),
}

impl PacketProcessingError {
    /// A stream failure: the end of the stream or a reset connection means the
    /// client is gone; anything else is reported with its text.
    pub fn from_stream_error(error: PacketStreamError) -> (e: Self)
        ensures
            match error {
                PacketStreamError::Io(kind, message) => if kind == StreamIoErrorKind::UnexpectedEof
                    || kind == StreamIoErrorKind::ConnectionReset {
                    e is Disconnected
                } else {
                    e matches PacketProcessingError::Custom(m) && m@ == message@
                },
                PacketStreamError::Other(message) => e matches PacketProcessingError::Custom(m)
                    && m@ == message@,
            },
    {
        match error {
            PacketStreamError::Io(kind, message) => {
                match kind {
                    StreamIoErrorKind::UnexpectedEof => PacketProcessingError::Disconnected,
                    StreamIoErrorKind::ConnectionReset => PacketProcessingError::Disconnected,
                    StreamIoErrorKind::Other => PacketProcessingError::Custom(message),
                }
            },
            PacketStreamError::Other(message) => PacketProcessingError::Custom(message),
        }
    }

    /// A handler failure: a packet the client's state does not allow ends the
    /// connection; anything else is reported with its reason.
    pub fn from_handler_error(error: PacketHandlerError) -> (e: Self)
        ensures
            match error {
                PacketHandlerError::Custom(reason) => e matches PacketProcessingError::Custom(m)
                    && m@ == reason@,
                PacketHandlerError::InvalidState(_, _) => e is Disconnected,
            },
    {
        match error {
            PacketHandlerError::Custom(reason) => PacketProcessingError::Custom(reason),
            PacketHandlerError::InvalidState(_, _) => PacketProcessingError::Disconnected,
        }
    }

    /// A decode failure: an unknown packet keeps its version, state and id;
    /// anything else is reported with its text.
    pub fn from_decode_error(error: PacketRegistryDecodeError) -> (e: Self)
        ensures
            match error {
                PacketRegistryDecodeError::NoCorrespondingPacket(version, state, id) => e
                    == PacketProcessingError::DecodePacketError(version, state, id),
                PacketRegistryDecodeError::Other(message) => e matches PacketProcessingError::Custom(
                    m,
                ) && m@ == message@,
            },
    {
        match error {
            PacketRegistryDecodeError::NoCorrespondingPacket(version, state, id) => {
                PacketProcessingError::DecodePacketError(version, state, id)
            },
            PacketRegistryDecodeError::Other(message) => PacketProcessingError::Custom(message),
        }
    }
}

/// What a connection does once a packet was handled and its replies written.
#[derive(Debug, PartialEq, Eq)]
pub enum AfterPacket {
    /// Kick the client with this reason; the connection is then over.
    KickThenDisconnect(String),
    /// Start the keep-alive if it is due.
    EnableKeepAlive,
}

/// What follows a handled packet: a kick, when the handlers asked for one.
pub fn after_packet(kick_reason: Option<String>) -> (next: AfterPacket)
    ensures
        match kick_reason {
            Some(reason) => next matches AfterPacket::KickThenDisconnect(r) && r@ == reason@,
            None => next is EnableKeepAlive,
        },
{
    match kick_reason {
        Some(reason) => AfterPacket::KickThenDisconnect(reason),
        None => AfterPacket::EnableKeepAlive,
    }
}

/// How handling a packet ends: a kicked client is gone whether or not the kick could
/// be sent; otherwise the packet was handled.
pub fn packet_outcome(next: &AfterPacket) -> (outcome: Result<(), PacketProcessingError>)
    ensures
        match next {
            AfterPacket::KickThenDisconnect(_) => outcome == Err::<(), PacketProcessingError>(
                PacketProcessingError::Disconnected,
            ),
            AfterPacket::EnableKeepAlive => outcome is Ok,
        },
{
    match next {
        AfterPacket::KickThenDisconnect(_) => Err(PacketProcessingError::Disconnected),
        AfterPacket::EnableKeepAlive => Ok(()),
    }
}

/// The compression to switch on after writing a reply: only after the reply that
/// announces compression, and only when the server compresses.
pub fn compression_after_reply<C>(announces_compression: bool, settings: Option<C>) -> (on:
    Option<C>)
    ensures
        on == if announces_compression {
            settings
        } else {
            None
        },
{
    if announces_compression {
        settings
    } else {
        None
    }
}


/// A kick is delivered as a kick with the very message it was pushed with, whatever
/// the client's version.
pub proof fn lemma_kick_delivered_as_configured(
    message: String,
    protocol_version: ProtocolVersion,
    delivery: PushDelivery,
)
    requires
        delivers(PushAction::Kick(message), protocol_version, delivery),
    ensures
        delivery matches PushDelivery::Kick(m) && m@ == message@,
{
}

/// A transfer reaches clients from 1.20.5 (protocol 766) on with its host and port;
/// an older client is kicked with the fixed message instead.
pub proof fn lemma_transfer_by_version(
    host: String,
    port: i32,
    protocol_version: ProtocolVersion,
    delivery: PushDelivery,
)
    requires
        delivers(PushAction::Transfer { host, port }, protocol_version, delivery),
    ensures
        protocol_version.protocol >= 766 ==> (delivery matches PushDelivery::Transfer {
            host: h,
            port: p,
        } && h@ == host@ && p == port),
        protocol_version.protocol < 766 ==> (delivery matches PushDelivery::Kick(m) && m@
            == "You have been moved to the main server."@),
{
}

} // verus!
