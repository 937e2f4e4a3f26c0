//! The packets of a session on a link of its protocol version.

use vstd::prelude::*;

use crate::inbound::{Reply, SubscribeReply, UnsubscribeReply};
use crate::link::{
    ConnectionCloseReason, FlowCloseReason, FlowId, LinkError, LinkEvent, ReplyPath,
};
use crate::packet::{
    Auth, DisconnectV5, MqttPacket, Packet, PacketId, PacketV3, PacketV5, ProtocolVersion, Publish,
    PublishAck, PublishAck2, PublishAck2Reason, PublishProperties,
};
use crate::reason::PublishResult;

verus! {

/// Event on the link of a session.
#[allow(inconsistent_fields)]
#[derive(Debug)]
pub enum SessionLinkEvent {
    /// A packet of the session's protocol version.
    Packet {
        /// The packet.
        packet: Packet,
        /// Path on which replies must be sent.
        reply_path: ReplyPath,
    },
    /// One flow ended.
    FlowClosed {
        /// Identifier of the flow.
        flow_id: FlowId,
        /// Why it ended.
        reason: FlowCloseReason,
    },
    /// The connection ended.
    ConnectionClosed {
        /// Why it ended.
        reason: ConnectionCloseReason,
    },
}

/// A packet as the session takes it, where its version is the session's.
pub open spec fn decoded(protocol: ProtocolVersion, packet: MqttPacket) -> Result<
    Packet,
    LinkError,
> {
    match (protocol, packet) {
        (ProtocolVersion::MQTT3, MqttPacket::V3(packet)) => Ok(Packet::V3(packet)),
        (ProtocolVersion::MQTT5, MqttPacket::V5(packet)) => Ok(Packet::V5(packet)),
        (ProtocolVersion::MQTT3, MqttPacket::V5(_)) => Err(LinkError::ReceivedV5OnV3),
        (ProtocolVersion::MQTT5, MqttPacket::V3(_)) => Err(LinkError::ReceivedV3OnV5),
        (_, MqttPacket::Version(_)) => Err(LinkError::ReceivedVersionProbe),
    }
}

/// A packet as the link takes it, where its version is the session's.
pub open spec fn encoded(protocol: ProtocolVersion, packet: Packet) -> Result<
    MqttPacket,
    LinkError,
> {
    match (protocol, packet) {
        (ProtocolVersion::MQTT3, Packet::V3(packet)) => Ok(MqttPacket::V3(packet)),
        (ProtocolVersion::MQTT5, Packet::V5(packet)) => Ok(MqttPacket::V5(packet)),
        (ProtocolVersion::MQTT3, Packet::V5(_)) => Err(LinkError::CannotSendV5OnV3),
        (ProtocolVersion::MQTT5, Packet::V3(_)) => Err(LinkError::CannotSendV3OnV5),
    }
}

/// What a session sends on its link is what a session of the same version takes from it.
pub proof fn decoding_undoes_encoding(protocol: ProtocolVersion, packet: Packet)
    ensures
        encoded(protocol, packet) matches Ok(sent) ==> decoded(protocol, sent) == Ok::<
            Packet,
            LinkError,
        >(packet),
{
}

/// Link of a session.
#[derive(Clone, Copy, Debug, PartialEq, Eq, Structural)]
pub struct SessionLink {
    /// Protocol version of the session.
    pub protocol: ProtocolVersion,
}

/// Whether `packet` is of the protocol version.
pub open spec fn of_version(protocol: ProtocolVersion, packet: MqttPacket) -> bool {
    match protocol {
        ProtocolVersion::MQTT3 => packet is V3,
        ProtocolVersion::MQTT5 => packet is V5,
    }
}

/// Whether `packet` is PUBACK, or with `received` PUBREC, and carries `result`.
pub open spec fn acknowledges(
    protocol: ProtocolVersion,
    packet: MqttPacket,
    packet_id: PacketId,
    result: PublishResult,
    received: bool,
) -> bool {
    let ack = PublishAck {
        packet_id,
        reason_code: result.reason_code,
        properties: result.properties,
        reason_string: result.reason_string,
    };
    packet == (match (protocol, received) {
        (ProtocolVersion::MQTT3, false) => MqttPacket::V3(PacketV3::PublishAck { packet_id }),
        (ProtocolVersion::MQTT3, true) => MqttPacket::V3(PacketV3::PublishReceived { packet_id }),
        (ProtocolVersion::MQTT5, false) => MqttPacket::V5(PacketV5::PublishAck(ack)),
        (ProtocolVersion::MQTT5, true) => MqttPacket::V5(PacketV5::PublishReceived(ack)),
    })
}

/// Whether `ack` holds the identifier and the reason code, and nothing else.
pub open spec fn bare_ack2(
    ack: PublishAck2,
    packet_id: PacketId,
    reason_code: PublishAck2Reason,
) -> bool {
    &&& ack.packet_id == packet_id
    &&& ack.reason_code == reason_code
    &&& ack.properties@.len() == 0
    &&& ack.reason_string is None
}

/// The properties of an outbound PUBLISH: its remaining lifetime and its alias are set anew.
pub open spec fn stamped(
    properties: Option<PublishProperties>,
    message_expiry_interval: Option<u32>,
    alias: Option<u16>,
) -> Option<PublishProperties> {
    match properties {
        Some(properties) => Some(
            PublishProperties { message_expiry_interval, topic_alias: alias, ..properties },
        ),
        None => None,
    }
}

impl SessionLink {
    /// Creates the link of a session.
    pub fn new(protocol: ProtocolVersion) -> (link: SessionLink)
        ensures
            link.protocol == protocol,
    {
        SessionLink { protocol }
    }

    /// Returns the protocol version of the session.
    pub fn protocol(&self) -> (protocol: ProtocolVersion)
        ensures
            protocol == self.protocol,
    {
        self.protocol
    }

    /// Takes an event from the link.
    pub fn receive(&self, event: Option<LinkEvent>) -> (result: Result<
        Option<SessionLinkEvent>,
        LinkError,
    >)
        ensures
            match event {
                None => result == Ok::<Option<SessionLinkEvent>, LinkError>(None),
                Some(LinkEvent::Packet { packet, reply_path }) => match decoded(
                    self.protocol,
                    packet,
                ) {
                    Ok(packet) => result == Ok::<Option<SessionLinkEvent>, LinkError>(
                        Some(SessionLinkEvent::Packet { packet, reply_path }),
                    ),
                    Err(error) => result == Err::<Option<SessionLinkEvent>, LinkError>(error),
                },
                Some(LinkEvent::FlowClosed { flow_id, reason }) => result == Ok::<
                    Option<SessionLinkEvent>,
                    LinkError,
                >(Some(SessionLinkEvent::FlowClosed { flow_id, reason })),
                Some(LinkEvent::ConnectionClosed { reason }) => result == Ok::<
                    Option<SessionLinkEvent>,
                    LinkError,
                >(Some(SessionLinkEvent::ConnectionClosed { reason })),
            },
    {
        match event {
            None => Ok(None),
            Some(LinkEvent::Packet { packet, reply_path }) => {
                match self.decode_packet(packet) {
                    Ok(packet) => Ok(Some(SessionLinkEvent::Packet { packet, reply_path })),
                    Err(error) => Err(error),
                }
            },
            Some(LinkEvent::FlowClosed { flow_id, reason }) => {
                Ok(Some(SessionLinkEvent::FlowClosed { flow_id, reason }))
            },
            Some(LinkEvent::ConnectionClosed { reason }) => {
                Ok(Some(SessionLinkEvent::ConnectionClosed { reason }))
            },
        }
    }

    /// Takes a packet of the session's protocol version.
    pub fn decode_packet(&self, packet: MqttPacket) -> (result: Result<Packet, LinkError>)
        ensures
            result == decoded(self.protocol, packet),
    {
        match (self.protocol, packet) {
            (ProtocolVersion::MQTT3, MqttPacket::V3(packet)) => Ok(Packet::V3(packet)),
            (ProtocolVersion::MQTT5, MqttPacket::V5(packet)) => Ok(Packet::V5(packet)),
            (ProtocolVersion::MQTT3, MqttPacket::V5(_)) => Err(LinkError::ReceivedV5OnV3),
            (ProtocolVersion::MQTT5, MqttPacket::V3(_)) => Err(LinkError::ReceivedV3OnV5),
            (_, MqttPacket::Version(_)) => Err(LinkError::ReceivedVersionProbe),
        }
    }

    /// Hands out a packet of the session's protocol version.
    pub fn encode_packet(&self, packet: Packet) -> (result: Result<MqttPacket, LinkError>)
        ensures
            result == encoded(self.protocol, packet),
    {
        match (self.protocol, packet) {
            (ProtocolVersion::MQTT3, Packet::V3(packet)) => Ok(MqttPacket::V3(packet)),
            (ProtocolVersion::MQTT5, Packet::V5(packet)) => Ok(MqttPacket::V5(packet)),
            (ProtocolVersion::MQTT3, Packet::V5(_)) => Err(LinkError::CannotSendV5OnV3),
            (ProtocolVersion::MQTT5, Packet::V3(_)) => Err(LinkError::CannotSendV3OnV5),
        }
    }

    /// Returns the PUBLISH for a message.
    ///
    /// `aliased` is what the alias table of the session makes of the topic: the name that
    /// still has to be sent, and the alias. Without a table the name is sent as it is.
    /// MQTT 3 knows neither aliases nor lifetimes.
    pub fn publish_packet(
        &self,
        publish: Publish,
        message_expiry_interval: Option<u32>,
        aliased: Option<(Option<String>, Option<u16>)>,
    ) -> (packet: MqttPacket)
        ensures
            of_version(self.protocol, packet),
            self.protocol == ProtocolVersion::MQTT3 ==> packet == MqttPacket::V3(
                PacketV3::Publish(publish),
            ),
            self.protocol == ProtocolVersion::MQTT5 ==> {
                &&& packet matches MqttPacket::V5(PacketV5::Publish(sent))
                &&& sent.topic@ == (match aliased {
                    Some((Some(topic), _)) => topic@,
                    Some((None, _)) => Seq::empty(),
                    None => publish.topic@,
                })
                &&& sent.properties == stamped(
                    publish.properties,
                    message_expiry_interval,
                    match aliased {
                        Some((_, alias)) => alias,
                        None => None,
                    },
                )
                &&& sent == (Publish {
                    topic: sent.topic,
                    properties: sent.properties,
                    ..publish
                })
            },
    {
        let mut publish = publish;
        match self.protocol {
            ProtocolVersion::MQTT3 => MqttPacket::V3(PacketV3::Publish(publish)),
            ProtocolVersion::MQTT5 => {
                let alias = match aliased {
                    Some((topic, alias)) => {
                        publish.topic = match topic {
                            Some(topic) => topic,
                            None => String::new(),
                        };
                        alias
                    },
                    None => None,
                };
                publish.properties = match publish.properties {
                    Some(properties) => {
                        let mut properties = properties;
                        properties.message_expiry_interval = message_expiry_interval;
                        properties.topic_alias = alias;
                        Some(properties)
                    },
                    None => None,
                };
                MqttPacket::V5(PacketV5::Publish(publish))
            },
        }
    }

    /// Returns the PUBACK for a message.
    pub fn publish_ack(&self, packet_id: PacketId, result: PublishResult) -> (packet: MqttPacket)
        ensures
            acknowledges(self.protocol, packet, packet_id, result, false),
    {
        match self.protocol {
            ProtocolVersion::MQTT3 => MqttPacket::V3(PacketV3::PublishAck { packet_id }),
            ProtocolVersion::MQTT5 => MqttPacket::V5(
                PacketV5::PublishAck(
                    PublishAck {
                        packet_id,
                        reason_code: result.reason_code,
                        properties: result.properties,
                        reason_string: result.reason_string,
                    },
                ),
            ),
        }
    }

    /// Returns the PUBREC for a message.
    pub fn publish_received(&self, packet_id: PacketId, result: PublishResult) -> (packet:
        MqttPacket)
        ensures
            acknowledges(self.protocol, packet, packet_id, result, true),
    {
        match self.protocol {
            ProtocolVersion::MQTT3 => MqttPacket::V3(PacketV3::PublishReceived { packet_id }),
            ProtocolVersion::MQTT5 => MqttPacket::V5(
                PacketV5::PublishReceived(
                    PublishAck {
                        packet_id,
                        reason_code: result.reason_code,
                        properties: result.properties,
                        reason_string: result.reason_string,
                    },
                ),
            ),
        }
    }

    /// Returns the PUBREL for a transaction; no reason code stands for success, and MQTT 3
    /// knows no other.
    pub fn publish_release(&self, packet_id: PacketId, reason_code: Option<PublishAck2Reason>) -> (result:
        Result<MqttPacket, LinkError>)
        ensures
            match self.protocol {
                ProtocolVersion::MQTT3 => result == (if reason_code == Some(
                    PublishAck2Reason::PacketIdNotFound,
                ) {
                    Err::<MqttPacket, LinkError>(LinkError::PubrelReasonOnV3)
                } else {
                    Ok::<MqttPacket, LinkError>(
                        MqttPacket::V3(PacketV3::PublishRelease { packet_id }),
                    )
                }),
                ProtocolVersion::MQTT5 => {
                    &&& result matches Ok(MqttPacket::V5(PacketV5::PublishRelease(ack)))
                    &&& bare_ack2(
                        ack,
                        packet_id,
                        match reason_code {
                            Some(reason_code) => reason_code,
                            None => PublishAck2Reason::Success,
                        },
                    )
                },
            },
    {
        match self.protocol {
            ProtocolVersion::MQTT3 => {
                if let Some(PublishAck2Reason::PacketIdNotFound) = reason_code {
                    return Err(LinkError::PubrelReasonOnV3);
                }
                Ok(MqttPacket::V3(PacketV3::PublishRelease { packet_id }))
            },
            ProtocolVersion::MQTT5 => Ok(
                MqttPacket::V5(PacketV5::PublishRelease(ack2(packet_id, reason_code))),
            ),
        }
    }

    /// Returns the PUBCOMP for a transaction; no reason code stands for success, and MQTT 3
    /// knows no other.
    pub fn publish_complete(&self, packet_id: PacketId, reason_code: Option<PublishAck2Reason>) -> (result:
        Result<MqttPacket, LinkError>)
        ensures
            match self.protocol {
                ProtocolVersion::MQTT3 => result == (if reason_code == Some(
                    PublishAck2Reason::PacketIdNotFound,
                ) {
                    Err::<MqttPacket, LinkError>(LinkError::PubcompReasonOnV3)
                } else {
                    Ok::<MqttPacket, LinkError>(
                        MqttPacket::V3(PacketV3::PublishComplete { packet_id }),
                    )
                }),
                ProtocolVersion::MQTT5 => {
                    &&& result matches Ok(MqttPacket::V5(PacketV5::PublishComplete(ack)))
                    &&& bare_ack2(
                        ack,
                        packet_id,
                        match reason_code {
                            Some(reason_code) => reason_code,
                            None => PublishAck2Reason::Success,
                        },
                    )
                },
            },
    {
        match self.protocol {
            ProtocolVersion::MQTT3 => {
                if let Some(PublishAck2Reason::PacketIdNotFound) = reason_code {
                    return Err(LinkError::PubcompReasonOnV3);
                }
                Ok(MqttPacket::V3(PacketV3::PublishComplete { packet_id }))
            },
            ProtocolVersion::MQTT5 => Ok(
                MqttPacket::V5(PacketV5::PublishComplete(ack2(packet_id, reason_code))),
            ),
        }
    }

    /// Returns PINGRESP.
    pub fn ping_response(&self) -> (packet: MqttPacket)
        ensures
            packet == (match self.protocol {
                ProtocolVersion::MQTT3 => MqttPacket::V3(PacketV3::PingResponse),
                ProtocolVersion::MQTT5 => MqttPacket::V5(PacketV5::PingResponse),
            }),
    {
        match self.protocol {
            ProtocolVersion::MQTT3 => MqttPacket::V3(PacketV3::PingResponse),
            ProtocolVersion::MQTT5 => MqttPacket::V5(PacketV5::PingResponse),
        }
    }

    /// Returns AUTH, which MQTT 5 alone has.
    pub fn auth(&self, auth: Auth) -> (result: Result<MqttPacket, LinkError>)
        ensures
            result == encoded(self.protocol, Packet::V5(PacketV5::Auth(auth))),
    {
        self.encode_packet(Packet::V5(PacketV5::Auth(auth)))
    }

    /// Returns DISCONNECT, which MQTT 5 alone lets the broker send.
    pub fn disconnect(&self, disconnect: DisconnectV5) -> (result: Result<MqttPacket, LinkError>)
        ensures
            result == encoded(self.protocol, Packet::V5(PacketV5::Disconnect(disconnect))),
    {
        self.encode_packet(Packet::V5(PacketV5::Disconnect(disconnect)))
    }

    /// Returns the packet for a reply to the client.
    pub fn reply_packet(&self, reply: Reply) -> (result: Result<MqttPacket, LinkError>)
        ensures
            result matches Ok(packet) ==> of_version(self.protocol, packet),
            match reply {
                Reply::PublishAck { packet_id, result: published } => {
                    &&& result matches Ok(packet)
                    &&& acknowledges(self.protocol, packet, packet_id, published, false)
                },
                Reply::PublishReceived { packet_id, result: Some(published) } => {
                    &&& result matches Ok(packet)
                    &&& acknowledges(self.protocol, packet, packet_id, published, true)
                },
                Reply::PublishReceived { packet_id, result: None } => {
                    &&& result matches Ok(packet)
                    &&& exists|published: PublishResult|
                        published.is_success() && published.properties@.len() == 0
                            && published.reason_string is None && #[trigger] acknowledges(
                            self.protocol,
                            packet,
                            packet_id,
                            published,
                            true,
                        )
                },
                Reply::PublishRelease { packet_id } => match self.protocol {
                    ProtocolVersion::MQTT3 => result == Ok::<MqttPacket, LinkError>(
                        MqttPacket::V3(PacketV3::PublishRelease { packet_id }),
                    ),
                    ProtocolVersion::MQTT5 => result matches Ok(
                        MqttPacket::V5(PacketV5::PublishRelease(ack)),
                    ) && bare_ack2(ack, packet_id, PublishAck2Reason::Success),
                },
                Reply::PublishComplete { packet_id } => match self.protocol {
                    ProtocolVersion::MQTT3 => result == Ok::<MqttPacket, LinkError>(
                        MqttPacket::V3(PacketV3::PublishComplete { packet_id }),
                    ),
                    ProtocolVersion::MQTT5 => result matches Ok(
                        MqttPacket::V5(PacketV5::PublishComplete(ack)),
                    ) && bare_ack2(ack, packet_id, PublishAck2Reason::Success),
                },
                Reply::SubscribeAck(SubscribeReply::V3 { packet_id, status }) => result == encoded(
                    self.protocol,
                    Packet::V3(PacketV3::SubscribeAck { packet_id, status }),
                ),
                Reply::SubscribeAck(SubscribeReply::V5(ack)) => result == encoded(
                    self.protocol,
                    Packet::V5(PacketV5::SubscribeAck(ack)),
                ),
                Reply::UnsubscribeAck(UnsubscribeReply::V3 { packet_id }) => result == encoded(
                    self.protocol,
                    Packet::V3(PacketV3::UnsubscribeAck { packet_id }),
                ),
                Reply::UnsubscribeAck(UnsubscribeReply::V5(ack)) => result == encoded(
                    self.protocol,
                    Packet::V5(PacketV5::UnsubscribeAck(ack)),
                ),
                Reply::PingResponse => result == Ok::<MqttPacket, LinkError>(
                    match self.protocol {
                        ProtocolVersion::MQTT3 => MqttPacket::V3(PacketV3::PingResponse),
                        ProtocolVersion::MQTT5 => MqttPacket::V5(PacketV5::PingResponse),
                    },
                ),
                Reply::Auth => match self.protocol {
                    ProtocolVersion::MQTT3 => result == Err::<MqttPacket, LinkError>(
                        LinkError::CannotSendV5OnV3,
                    ),
                    ProtocolVersion::MQTT5 => result matches Ok(
                        MqttPacket::V5(PacketV5::Auth(auth)),
                    ) && auth.auth_method is None && auth.auth_data is None
                        && auth.reason_string is None && auth.user_properties@.len() == 0,
                },
            },
    {
        match reply {
            Reply::PublishAck { packet_id, result } => Ok(self.publish_ack(packet_id, result)),
            Reply::PublishReceived { packet_id, result } => {
                let result = match result {
                    Some(result) => result,
                    None => PublishResult::success(),
                };
                Ok(self.publish_received(packet_id, result))
            },
            Reply::PublishRelease { packet_id } => self.publish_release(packet_id, None),
            Reply::PublishComplete { packet_id } => self.publish_complete(packet_id, None),
            Reply::SubscribeAck(SubscribeReply::V3 { packet_id, status }) => {
                self.encode_packet(Packet::V3(PacketV3::SubscribeAck { packet_id, status }))
            },
            Reply::SubscribeAck(SubscribeReply::V5(ack)) => {
                self.encode_packet(Packet::V5(PacketV5::SubscribeAck(ack)))
            },
            Reply::UnsubscribeAck(UnsubscribeReply::V3 { packet_id }) => {
                self.encode_packet(Packet::V3(PacketV3::UnsubscribeAck { packet_id }))
            },
            Reply::UnsubscribeAck(UnsubscribeReply::V5(ack)) => {
                self.encode_packet(Packet::V5(PacketV5::UnsubscribeAck(ack)))
            },
            Reply::PingResponse => Ok(self.ping_response()),
            Reply::Auth => self.auth(Auth::default()),
        }
    }
}

fn ack2(packet_id: PacketId, reason_code: Option<PublishAck2Reason>) -> (ack: PublishAck2)
    ensures
        bare_ack2(
            ack,
            packet_id,
            match reason_code {
                Some(reason_code) => reason_code,
                None => PublishAck2Reason::Success,
            },
        ),
{
    PublishAck2 {
        packet_id,
        reason_code: match reason_code {
            Some(reason_code) => reason_code,
            None => PublishAck2Reason::Success,
        },
        properties: Vec::new(),
        reason_string: None,
    }
}

/// A session takes the packets of its own version, as they came; a packet of the other version
/// and a version probe are each refused with an error of their own.
pub proof fn sessions_take_their_own_version(v3: PacketV3, v5: PacketV5, probe: MqttPacket)
    requires
        probe is Version,
    ensures
        decoded(ProtocolVersion::MQTT3, MqttPacket::V3(v3)) == Ok::<Packet, LinkError>(
            Packet::V3(v3),
        ),
        decoded(ProtocolVersion::MQTT5, MqttPacket::V5(v5)) == Ok::<Packet, LinkError>(
            Packet::V5(v5),
        ),
        decoded(ProtocolVersion::MQTT3, MqttPacket::V5(v5)) == Err::<Packet, LinkError>(
            LinkError::ReceivedV5OnV3,
        ),
        decoded(ProtocolVersion::MQTT5, MqttPacket::V3(v3)) == Err::<Packet, LinkError>(
            LinkError::ReceivedV3OnV5,
        ),
        decoded(ProtocolVersion::MQTT3, probe) == Err::<Packet, LinkError>(
            LinkError::ReceivedVersionProbe,
        ),
        decoded(ProtocolVersion::MQTT5, probe) == Err::<Packet, LinkError>(
            LinkError::ReceivedVersionProbe,
        ),
{
}

/// A session sends the packets of its own version, as they are, and refuses the others.
pub proof fn sessions_send_their_own_version(v3: PacketV3, v5: PacketV5)
    ensures
        encoded(ProtocolVersion::MQTT3, Packet::V3(v3)) == Ok::<MqttPacket, LinkError>(
            MqttPacket::V3(v3),
        ),
        encoded(ProtocolVersion::MQTT5, Packet::V5(v5)) == Ok::<MqttPacket, LinkError>(
            MqttPacket::V5(v5),
        ),
        encoded(ProtocolVersion::MQTT3, Packet::V5(v5)) == Err::<MqttPacket, LinkError>(
            LinkError::CannotSendV5OnV3,
        ),
        encoded(ProtocolVersion::MQTT5, Packet::V3(v3)) == Err::<MqttPacket, LinkError>(
            LinkError::CannotSendV3OnV5,
        ),
        of_version(ProtocolVersion::MQTT3, MqttPacket::V3(v3)),
        of_version(ProtocolVersion::MQTT5, MqttPacket::V5(v5)),
        !of_version(ProtocolVersion::MQTT3, MqttPacket::V5(v5)),
        !of_version(ProtocolVersion::MQTT5, MqttPacket::V3(v3)),
{
}

/// An acknowledgement is of the kind that is asked for, carries the identifier of its message
/// and, in MQTT 5, the result as it was reached; in MQTT 3 the identifier alone.
pub proof fn acknowledgements_carry_their_result(
    packet: MqttPacket,
    packet_id: PacketId,
    result: PublishResult,
    received: bool,
)
    ensures
        acknowledges(ProtocolVersion::MQTT3, packet, packet_id, result, received) <==> packet
            == MqttPacket::V3(
            if received {
                PacketV3::PublishReceived { packet_id }
            } else {
                PacketV3::PublishAck { packet_id }
            },
        ),
        acknowledges(ProtocolVersion::MQTT5, packet, packet_id, result, received) ==> (
        match packet {
            MqttPacket::V5(PacketV5::PublishReceived(ack)) => received && ack.packet_id
                == packet_id && ack.reason_code == result.reason_code && ack.properties
                == result.properties && ack.reason_string == result.reason_string,
            MqttPacket::V5(PacketV5::PublishAck(ack)) => !received && ack.packet_id == packet_id
                && ack.reason_code == result.reason_code && ack.properties == result.properties
                && ack.reason_string == result.reason_string,
            _ => false,
        }),
{
}

/// PUBREL and PUBCOMP carry their identifier and reason, and neither properties nor a text.
pub proof fn releases_carry_nothing_else(
    ack: PublishAck2,
    packet_id: PacketId,
    reason_code: PublishAck2Reason,
)
    requires
        bare_ack2(ack, packet_id, reason_code),
    ensures
        ack.packet_id == packet_id,
        ack.reason_code == reason_code,
        ack.properties@.len() == 0,
        ack.reason_string is None,
{
}

/// An outbound PUBLISH carries the lifetime that is left to it and its alias, and nothing of
/// what the message was published with in their place; all its other properties stay.
pub proof fn sent_properties_are_set_anew(
    properties: PublishProperties,
    message_expiry_interval: Option<u32>,
    alias: Option<u16>,
)
    ensures
        stamped(None, message_expiry_interval, alias) is None,
        ({
            let sent = stamped(Some(properties), message_expiry_interval, alias)->0;
            &&& stamped(Some(properties), message_expiry_interval, alias) is Some
            &&& sent.message_expiry_interval == message_expiry_interval
            &&& sent.topic_alias == alias
            &&& PublishProperties {
                message_expiry_interval: properties.message_expiry_interval,
                topic_alias: properties.topic_alias,
                ..sent
            } == properties
        }),
{
}

} // verus!
