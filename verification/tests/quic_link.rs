use rmqtt::link::{
    ConnectionCloseReason, FlowCloseReason, FlowId, FlowKind, LinkError, LinkEvent, ReplyPath,
    SendTarget,
};
use rmqtt::packet::{
    Auth, MqttPacket, PacketId, PacketV3, PacketV5, ProtocolVersion, Publish, PublishAck2,
    PublishAck2Reason, QoS,
};
use rmqtt::quic_link::{
    classify_data_packet, close_code, handle_flow_command, link_settings, next_packet,
    reason_label, send_packet, watches_idleness, ConnectionBufferBudget, DataPacketAction,
    FlowCommandKind, FlowContext, FlowReset, LinkReport, QueuedLinkEvent, QuicMultiStreamLink,
    ReadFailure, StreamAction, StreamVersion, Supervisor, SupervisorAction, SupervisorEvent,
    WriteFailure,
};
use rmqtt::time::{Duration, Instant};

fn packet_id(value: u16) -> PacketId {
    PacketId::new(value).unwrap()
}

fn publish(payload: &str) -> MqttPacket {
    MqttPacket::V3(PacketV3::Publish(Publish {
        dup: false,
        retain: false,
        qos: QoS::AtMostOnce,
        topic: "test/data".to_string(),
        packet_id: None,
        payload: payload.as_bytes().to_vec(),
        properties: None,
        delay_interval: None,
        create_time: None,
    }))
}

fn link_with(generation: u64, flows: &[FlowId]) -> QuicMultiStreamLink<u32> {
    let mut link = QuicMultiStreamLink::new(generation);
    for (index, flow_id) in flows.iter().enumerate() {
        let step = link.absorb_supervisor_event(SupervisorEvent::FlowOpened {
            flow_id: *flow_id,
            handle: index as u32,
        });
        assert!(matches!(step.report, LinkReport::Wait));
        assert!(step.close.is_none());
    }
    link
}

fn resolve_send_target_for_test(
    generation: u64,
    flows: &[FlowId],
    target: SendTarget,
) -> Result<ReplyPath, LinkError> {
    link_with(generation, flows).resolve_send_target(target).map(|resolved| resolved.path)
}

#[test]
fn data_allowlist_accepts_publish_qos_and_subscription_requests() {
    assert_eq!(
        classify_data_packet(&MqttPacket::V3(PacketV3::PublishAck { packet_id: packet_id(1) })),
        DataPacketAction::Emit
    );
    assert_eq!(
        classify_data_packet(&MqttPacket::V5(PacketV5::PublishComplete(PublishAck2 {
            packet_id: packet_id(2),
            reason_code: PublishAck2Reason::Success,
            properties: Vec::new(),
            reason_string: None,
        }))),
        DataPacketAction::Emit
    );
}

#[test]
fn data_ping_resets_flow_without_emitting_packet() {
    assert_eq!(
        classify_data_packet(&MqttPacket::V3(PacketV3::PingRequest)),
        DataPacketAction::ResetFlow
    );
    assert_eq!(
        classify_data_packet(&MqttPacket::V5(PacketV5::PingResponse)),
        DataPacketAction::ResetFlow
    );
}

#[test]
fn data_forbidden_packets_close_connection() {
    assert_eq!(
        classify_data_packet(&MqttPacket::V3(PacketV3::Disconnect)),
        DataPacketAction::CloseConnection
    );
    assert_eq!(
        classify_data_packet(&MqttPacket::V5(PacketV5::Auth(Auth::default()))),
        DataPacketAction::CloseConnection
    );
}

#[test]
fn version_probes_close_the_connection() {
    assert_eq!(
        classify_data_packet(&MqttPacket::Version(ProtocolVersion::MQTT5)),
        DataPacketAction::CloseConnection
    );
}

#[test]
fn target_resolution_rejects_stale_reply_generation() {
    let generation = 9;
    let stale = ReplyPath::new(FlowId::new(1), FlowKind::Data, generation - 1);
    assert!(resolve_send_target_for_test(
        generation,
        &[FlowId::new(1)],
        SendTarget::Reply(stale)
    )
    .is_err());
    assert_eq!(
        resolve_send_target_for_test(generation, &[FlowId::new(1)], SendTarget::Reply(stale)),
        Err(LinkError::StaleReplyPath)
    );
}

#[test]
fn target_resolution_accepts_active_bound_flow() {
    let path =
        resolve_send_target_for_test(42, &[FlowId::new(7)], SendTarget::Bound(FlowId::new(7)))
            .unwrap();
    assert_eq!(path.flow_id(), FlowId::new(7));
    assert_eq!(path.flow_kind(), FlowKind::Data);
    assert_eq!(path.generation(), 42);
}

#[test]
fn target_resolution_knows_active_flows_only() {
    let flows = [FlowId::new(7)];
    let control = ReplyPath::new(FlowId::control(), FlowKind::Control, 3);
    assert_eq!(resolve_send_target_for_test(3, &flows, SendTarget::Control), Ok(control));
    assert_eq!(
        resolve_send_target_for_test(3, &flows, SendTarget::Bound(FlowId::control())),
        Ok(control)
    );
    assert_eq!(resolve_send_target_for_test(3, &flows, SendTarget::Reply(control)), Ok(control));
    assert_eq!(
        resolve_send_target_for_test(3, &flows, SendTarget::Bound(FlowId::new(8))),
        Err(LinkError::FlowNotActive(FlowId::new(8)))
    );
    let lost = ReplyPath::new(FlowId::new(8), FlowKind::Data, 3);
    assert_eq!(
        resolve_send_target_for_test(3, &flows, SendTarget::Reply(lost)),
        Err(LinkError::FlowNotActive(FlowId::new(8)))
    );
    let forged = ReplyPath::new(FlowId::new(7), FlowKind::Control, 3);
    assert_eq!(
        resolve_send_target_for_test(3, &flows, SendTarget::Reply(forged)),
        Err(LinkError::InvalidControlPath)
    );
}

#[test]
fn ping_on_data_flow_resets_only_that_flow() {
    let mut budget = ConnectionBufferBudget::new(1024);
    let mut link = link_with(5, &[FlowId::new(1), FlowId::new(2)]);
    let flow = FlowContext::data(FlowId::new(1), 5);

    let step = flow.on_packet(MqttPacket::V3(PacketV3::PingRequest), 2, &mut budget);
    assert!(step.ends);
    assert!(matches!(step.stream, StreamAction::Abort(0x4d51_5450)));
    assert_eq!(budget.reserved(), 0);
    let taken = link.absorb_queued_link_event(step.emit.unwrap(), &mut budget);
    assert!(taken.close.is_none());
    assert!(matches!(
        taken.report,
        LinkReport::Event(LinkEvent::FlowClosed { reason: FlowCloseReason::ProtocolViolation, .. })
    ));
    assert!(link.flow(FlowId::new(1)).is_none());
    assert_eq!(link.flow(FlowId::new(2)), Some(&1));

    let control = FlowContext::control(5);
    let step = control.on_packet(MqttPacket::V3(PacketV3::PingRequest), 2, &mut budget);
    assert!(!step.ends);
    let taken = link.absorb_queued_link_event(step.emit.unwrap(), &mut budget);
    assert!(matches!(
        taken.report,
        LinkReport::Event(LinkEvent::Packet {
            packet: MqttPacket::V3(PacketV3::PingRequest),
            reply_path,
        }) if reply_path.flow_id() == FlowId::control()
    ));
    assert_eq!(budget.reserved(), 0);
}

#[test]
fn data_flow_exceeding_connection_byte_budget_is_reset() {
    let mut budget = ConnectionBufferBudget::new(8);
    let flow = FlowContext::data(FlowId::new(1), 5);

    let step = flow.on_packet(publish("exceeds-budget"), 27, &mut budget);
    assert!(step.ends);
    assert!(matches!(
        step.emit,
        Some(QueuedLinkEvent {
            event: LinkEvent::FlowClosed { reason: FlowCloseReason::ResourceLimit, .. },
            buffered_bytes: 0,
        })
    ));
    assert_eq!(budget.reserved(), 0);

    let control = FlowContext::control(5);
    let step = control.on_packet(publish("exceeds-budget"), 27, &mut budget);
    assert!(matches!(
        step.emit,
        Some(QueuedLinkEvent {
            event: LinkEvent::ConnectionClosed { reason: ConnectionCloseReason::ResourceLimit },
            ..
        })
    ));
}

#[test]
fn budget_is_shared_and_given_back() {
    let mut budget = ConnectionBufferBudget::new(10);
    assert!(budget.try_reserve(6));
    assert!(!budget.try_reserve(5));
    assert!(budget.try_reserve(4));
    assert!(!budget.try_reserve(usize::MAX));
    assert_eq!(budget.reserved(), 10);
    budget.release(6);
    assert!(budget.try_reserve(5));
    assert_eq!(budget.reserved(), 9);
}

#[test]
fn passed_on_packets_hold_their_bytes_until_taken_up() {
    let mut budget = ConnectionBufferBudget::new(40);
    let mut link = link_with(5, &[FlowId::new(1)]);
    let flow = FlowContext::data(FlowId::new(1), 5);

    let step = flow.on_packet(publish("one"), 16, &mut budget);
    assert!(!step.ends);
    assert_eq!(budget.reserved(), 16);
    let queued = step.emit.unwrap();
    assert_eq!(queued.buffered_bytes, 16);
    let taken = link.absorb_queued_link_event(queued, &mut budget);
    assert_eq!(budget.reserved(), 0);
    let LinkReport::Event(LinkEvent::Packet { reply_path, .. }) = taken.report else {
        panic!("expected packet event");
    };
    let resolved = link.resolve_send_target(SendTarget::Reply(reply_path)).unwrap();
    assert_eq!(resolved.flow_id, FlowId::new(1));
}

#[test]
fn peer_reset_on_idle_data_flow_does_not_close_control_flow() {
    let mut budget = ConnectionBufferBudget::new(40);
    let mut link = link_with(5, &[FlowId::new(1)]);
    let step = FlowContext::data(FlowId::new(1), 5).on_read_failed(Some(ReadFailure::Reset(77)));
    let taken = link.absorb_queued_link_event(step.emit.unwrap(), &mut budget);
    assert!(matches!(
        taken.report,
        LinkReport::Event(LinkEvent::FlowClosed { reason: FlowCloseReason::RecvReset(77), .. })
    ));
    assert!(taken.close.is_none());
    assert!(!link.has_ended(true));
}

#[test]
fn peer_stop_on_data_flow_send_isolated_from_control_flow() {
    let mut budget = ConnectionBufferBudget::new(40);
    let mut link = link_with(5, &[FlowId::new(1)]);
    let step =
        FlowContext::data(FlowId::new(1), 5).on_command_failed(Some(WriteFailure::Stopped(88)));
    let taken = link.absorb_queued_link_event(step.emit.unwrap(), &mut budget);
    assert!(matches!(
        taken.report,
        LinkReport::Event(LinkEvent::FlowClosed { reason: FlowCloseReason::SendStopped(88), .. })
    ));
    assert!(!link.has_ended(true));
}

fn flow_reason(emit: Option<QueuedLinkEvent>) -> Option<FlowCloseReason> {
    match emit.map(|queued| queued.event) {
        Some(LinkEvent::FlowClosed { reason, .. }) => Some(reason),
        _ => None,
    }
}

fn connection_reason(emit: Option<QueuedLinkEvent>) -> Option<ConnectionCloseReason> {
    match emit.map(|queued| queued.event) {
        Some(LinkEvent::ConnectionClosed { reason }) => Some(reason),
        _ => None,
    }
}

#[test]
fn failures_of_data_flows_are_classified() {
    let data = FlowContext::data(FlowId::new(3), 1);
    assert_eq!(
        flow_reason(data.on_read_failed(Some(ReadFailure::ClosedStream)).emit),
        Some(FlowCloseReason::RecvFinished)
    );
    assert_eq!(flow_reason(data.on_finished().emit), Some(FlowCloseReason::RecvFinished));
    assert_eq!(
        flow_reason(data.on_command_failed(Some(WriteFailure::ClosedStream)).emit),
        Some(FlowCloseReason::SendFailed)
    );
    assert_eq!(flow_reason(data.on_command_failed(None).emit), Some(FlowCloseReason::SendFailed));
    assert_eq!(flow_reason(data.on_idle().emit), Some(FlowCloseReason::IdleTimeout));
    assert!(matches!(data.on_idle().stream, StreamAction::Close));
    assert_eq!(
        connection_reason(data.on_read_failed(None).emit),
        Some(ConnectionCloseReason::ProtocolViolation)
    );
    assert_eq!(
        connection_reason(data.on_read_failed(Some(ReadFailure::ConnectionLost)).emit),
        Some(ConnectionCloseReason::TransportLost)
    );
    assert_eq!(
        connection_reason(data.on_command_failed(Some(WriteFailure::ZeroRttRejected)).emit),
        Some(ConnectionCloseReason::ProtocolViolation)
    );
    assert_eq!(
        connection_reason(data.on_command_failed(Some(WriteFailure::ConnectionLost)).emit),
        Some(ConnectionCloseReason::TransportLost)
    );
}

#[test]
fn every_end_of_the_control_flow_closes_the_connection() {
    let control = FlowContext::control(1);
    let closed = Some(ConnectionCloseReason::ControlFlowClosed);
    assert_eq!(connection_reason(control.on_finished().emit), closed);
    assert_eq!(connection_reason(control.on_idle().emit), closed);
    assert_eq!(connection_reason(control.on_read_failed(Some(ReadFailure::Reset(1))).emit), closed);
    assert_eq!(
        connection_reason(control.on_read_failed(Some(ReadFailure::ClosedStream)).emit),
        closed
    );
    assert_eq!(
        connection_reason(control.on_command_failed(Some(WriteFailure::Stopped(1))).emit),
        closed
    );
    assert_eq!(connection_reason(control.on_command_failed(None).emit), closed);
    assert_eq!(
        connection_reason(control.on_command_done(Some(FlowCloseReason::ConnectionLost)).emit),
        closed
    );
    assert!(control.on_commands_gone().emit.is_none());
    assert!(control.on_commands_gone().ends);
}

#[test]
fn commands_act_on_the_stream() {
    let (action, closing) = handle_flow_command(FlowCommandKind::Send(publish("x")));
    assert!(matches!(action, StreamAction::Write(_)));
    assert!(closing.is_none());
    let (action, closing) = handle_flow_command(FlowCommandKind::Flush);
    assert!(matches!(action, StreamAction::Flush));
    assert!(closing.is_none());
    let (action, closing) =
        handle_flow_command(FlowCommandKind::Close(FlowCloseReason::CodecMalformed));
    assert!(matches!(action, StreamAction::Abort(0x4d51_5450)));
    assert_eq!(closing, Some(FlowCloseReason::CodecMalformed));
    let (action, closing) =
        handle_flow_command(FlowCommandKind::Close(FlowCloseReason::ConnectionLost));
    assert!(matches!(action, StreamAction::Close));
    assert_eq!(closing, Some(FlowCloseReason::ConnectionLost));
    let step = FlowContext::data(FlowId::new(1), 1).on_command_done(None);
    assert!(!step.ends && step.emit.is_none());
}

#[test]
fn streams_carry_packets_of_their_version_only() {
    let v5 = MqttPacket::V5(PacketV5::PingRequest);
    assert_eq!(
        next_packet(StreamVersion::V5, Some(Ok((v5.clone(), 2)))),
        Ok(Some((v5.clone(), 2)))
    );
    assert_eq!(
        next_packet(StreamVersion::V3, Some(Ok((v5.clone(), 2)))),
        Err(LinkError::StreamVersionMismatch)
    );
    assert_eq!(next_packet(StreamVersion::V3, None), Ok(None));
    assert_eq!(send_packet(StreamVersion::V5, &v5), Ok(()));
    assert_eq!(send_packet(StreamVersion::V3, &v5), Err(LinkError::StreamVersionMismatch));
}

#[test]
fn close_codes_and_labels() {
    assert_eq!(close_code(&ConnectionCloseReason::ProtocolViolation), 0x4d51_5450);
    assert_eq!(close_code(&ConnectionCloseReason::TransportLost), 0x4d51_5400);
    assert_eq!(reason_label(&ConnectionCloseReason::StatefulFlowFailure), "stateful-flow-failure");
    assert_eq!(reason_label(&ConnectionCloseReason::KeepAliveTimeout), "keep-alive-timeout");
    assert!(watches_idleness(Duration::from_secs(1)));
    assert!(!watches_idleness(Duration::zero()));
}

#[test]
fn settings_are_bounded() {
    let settings = link_settings(u32::MAX, u32::MAX, 0, 0);
    assert_eq!(settings.max_data_streams, u32::MAX - 1);
    assert_eq!(settings.bi_stream_credit, u32::MAX);
    assert_eq!(settings.mailbox_packets, 1);
    assert_eq!(settings.buffer_limit, 1);
    assert_eq!(settings.receive_window, 1);

    let settings = link_settings(2, 8, 256, 1024 * 1024);
    assert_eq!(settings.max_data_streams, 2);
    assert_eq!(settings.bi_stream_credit, 3);
    assert_eq!(settings.receive_window, 1024 * 1024);
    assert_eq!(link_settings(9, 8, 256, 5 << 32).receive_window, u32::MAX);
    assert_eq!(link_settings(9, 8, 256, 1).max_data_streams, 8);
}

#[test]
fn supervisor_bounds_the_rate_of_new_flows() {
    let second = 1_000_000_000_u128;
    let mut supervisor = Supervisor::new(6, 8, 2, Instant::from_nanos(0));
    assert_eq!(
        supervisor.on_stream(Instant::from_nanos(1)),
        SupervisorAction::Open(FlowContext::data(FlowId::new(1), 6))
    );
    assert_eq!(
        supervisor.on_stream(Instant::from_nanos(2)),
        SupervisorAction::Open(FlowContext::data(FlowId::new(2), 6))
    );
    assert_eq!(
        supervisor.on_stream(Instant::from_nanos(second - 1)),
        SupervisorAction::Close(ConnectionCloseReason::ProtocolViolation)
    );
    assert_eq!(
        supervisor.on_stream(Instant::from_nanos(second)),
        SupervisorAction::Open(FlowContext::data(FlowId::new(3), 6))
    );
    assert_eq!(
        supervisor.on_accept_failed(),
        SupervisorAction::Close(ConnectionCloseReason::TransportLost)
    );
    let mut none = Supervisor::new(6, 0, 0, Instant::from_nanos(0));
    assert_eq!(none.stream_open_rate, 1);
    assert_eq!(
        none.on_stream(Instant::from_nanos(0)),
        SupervisorAction::Close(ConnectionCloseReason::ProtocolViolation)
    );
}

#[test]
fn link_ends_once() {
    let mut link: QuicMultiStreamLink<u32> = link_with(1, &[FlowId::new(1), FlowId::new(2)]);
    assert_eq!(link.generation(), 1);
    assert!(matches!(link.on_supervisor_gone(), LinkReport::Wait));
    assert!(matches!(
        link.on_control_disconnected(),
        LinkReport::Event(LinkEvent::ConnectionClosed {
            reason: ConnectionCloseReason::ControlFlowClosed
        })
    ));
    assert!(matches!(link.on_control_disconnected(), LinkReport::Wait));
    assert!(matches!(link.on_supervisor_gone(), LinkReport::End));
    assert!(link.has_ended(true));
    assert!(!link.has_ended(false));
}

#[test]
fn flows_are_flushed_reset_and_closed() {
    let mut link: QuicMultiStreamLink<u32> =
        link_with(1, &[FlowId::new(1), FlowId::new(2), FlowId::new(3)]);
    let targets = link.flush_targets();
    assert_eq!(targets.len(), 4);
    assert_eq!(targets[0].flow_id, FlowId::control());

    assert!(matches!(
        link.reset_flow(FlowId::control()),
        Ok(FlowReset::CloseConnection(ConnectionCloseReason::ControlFlowClosed))
    ));
    assert!(matches!(link.reset_flow(FlowId::new(2)), Ok(FlowReset::Close(1))));
    assert!(matches!(
        link.reset_flow(FlowId::new(2)),
        Err(LinkError::FlowNotActive(flow_id)) if flow_id == FlowId::new(2)
    ));
    let mut handles = link.close_connection();
    handles.sort();
    assert_eq!(handles, vec![0, 2]);
    assert!(link.close_connection().is_empty());

    let mut lost: QuicMultiStreamLink<u32> = link_with(1, &[]);
    let step = lost.absorb_supervisor_event(SupervisorEvent::ConnectionClosed {
        reason: ConnectionCloseReason::TransportLost,
    });
    assert_eq!(step.close, Some(ConnectionCloseReason::TransportLost));
    assert!(lost.has_ended(true));
}
