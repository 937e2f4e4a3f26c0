//! Why messages are dropped and sessions end.

use vstd::prelude::*;

use crate::link::{FlowId, LinkError};
use crate::packet::{Disconnect, PacketId, PublishAckReason};
use crate::route::RouteError;

verus! {

/// Violation of the MQTT protocol by the peer.
#[derive(Clone, Copy, Debug, PartialEq, Eq, Structural)]
pub enum ProtocolError {
    /// A packet that needs a packet identifier came without one.
    MissingPacketId,
    /// A packet does not fit the transactions that are under way.
    Route(RouteError),
    /// A data flow ended with transactions under way on it.
    TransactionLost(FlowId),
}

/// Why a message is dropped or a session ends.
#[derive(Debug, PartialEq, Eq)]
pub enum Reason {
    /// The keep-alive deadline expired.
    ConnectKeepaliveTimeout,
    /// The peer closed the connection.
    ConnectRemoteClose,
    /// Sending or receiving failed.
    ConnectReadWriteError,
    /// Another session took over, or an administrator intervened.
    ConnectKicked(bool),
    /// The peer sent DISCONNECT.
    ConnectDisconnect(Disconnect),
    /// The peer violated the protocol.
    ProtocolError(ProtocolError),
    /// The peer reused a packet identifier that is still in use.
    PacketIdInUse(PacketId),
    /// Subscribing failed, in the words of the service that failed.
    SubscribeFailed(String),
    /// Unsubscribing failed, in the words of the service that failed.
    UnsubscribeFailed(String),
    /// Publishing was refused in a way that ends the connection.
    PublishRefused(PublishAckReason, String),
    /// A data flow of a multistream connection used a topic alias.
    TopicAliasForbidden,
    /// The lifetime of the message is over.
    MessageExpiration,
    /// The queue has no room.
    MessageQueueFull,
    /// The queue was closed.
    MessageQueueClosed,
    /// The mailbox of the session was closed.
    MailboxClosed,
    /// The lifetime of the session is over.
    SessionExpiration,
    /// The delayed message cannot be kept.
    DelayedPublishRefused,
    /// A retransmission lost its identity on the way.
    RetryIdentityChanged,
    /// A new message was given a packet identifier that is still in use.
    OutboundPacketIdInUse(PacketId),
    /// A message to be delivered has no packet identifier.
    OutboundPacketIdMissing,
    /// A message to be delivered does not fit the transactions that are under way.
    OutboundRoute(RouteError),
    /// A packet that a client must not send.
    UnimplementedPacket,
    /// The link failed.
    Link(LinkError),
    /// A service of the broker failed, in its own words.
    Service(String),
}

/// What became of a published message.
#[derive(Debug, PartialEq, Eq)]
pub struct PublishResult {
    /// Reason code for the acknowledgement.
    pub reason_code: PublishAckReason,
    /// Name and value pairs for the acknowledgement.
    pub properties: Vec<(String, String)>,
    /// Human readable explanation for the acknowledgement.
    pub reason_string: Option<String>,
    /// Whether a refusal ends the connection.
    pub disconnect: bool,
}

impl PublishResult {
    /// Whether the message was taken.
    pub open spec fn spec_is_success(&self) -> bool {
        self.reason_code == PublishAckReason::Success
    }

    /// Returns the result of a message that was taken.
    pub fn success() -> (result: PublishResult)
        ensures
            result.reason_code == PublishAckReason::Success,
            result.properties@.len() == 0,
            result.reason_string is None,
            !result.disconnect,
    {
        PublishResult {
            reason_code: PublishAckReason::Success,
            properties: Vec::new(),
            reason_string: None,
            disconnect: false,
        }
    }

    /// Returns whether the message was taken.
    #[verifier::when_used_as_spec(spec_is_success)]
    pub fn is_success(&self) -> (taken: bool)
        ensures
            taken == self.is_success(),
    {
        self.reason_code == PublishAckReason::Success
    }
}

/// A message was taken exactly if it is acknowledged with success.
pub proof fn success_is_the_only_acceptance(result: PublishResult)
    ensures
        result.is_success() <==> (result.reason_code matches PublishAckReason::Success),
{
}

} // verus!
