use rmqtt::addr::SocketAddr;
use rmqtt::link::LinkError;
use rmqtt::quic::{
    AcceptedQuicControl, AcceptedQuicMqtt, Ingress, IngressAction, IngressError, IngressEvent,
    QuicIngressMeta, StreamFailures,
};
use rmqtt::quic_link::{ReadFailure, WriteFailure};

fn meta(is_0rtt: bool) -> QuicIngressMeta {
    QuicIngressMeta { is_0rtt, remote_addr: SocketAddr::v4(0x7f00_0001, 9443) }
}

#[test]
fn early_streams_wait_for_the_handshake() {
    let mut ingress = Ingress::begin(true);
    assert!(matches!(ingress.on_event(IngressEvent::Established), IngressAction::AwaitControl));
    assert!(matches!(
        ingress.on_event(IngressEvent::ControlOpened { is_0rtt: true }),
        IngressAction::AwaitFinished
    ));
    assert!(matches!(
        ingress.on_event(IngressEvent::Finished { has_handshake_data: true, close_reason: None }),
        IngressAction::Accept { is_0rtt: true }
    ));
    assert_eq!(ingress, Ingress::Accepted { is_0rtt: true });
}

#[test]
fn full_handshakes_come_before_the_control_stream() {
    let mut ingress = Ingress::begin(false);
    assert!(matches!(ingress.on_event(IngressEvent::Established), IngressAction::AwaitControl));
    assert!(matches!(
        ingress.on_event(IngressEvent::ControlOpened { is_0rtt: false }),
        IngressAction::Accept { is_0rtt: false }
    ));
}

#[test]
fn missing_control_stream_closes_the_connection() {
    let mut ingress = Ingress::begin(false);
    ingress.on_event(IngressEvent::Established);
    assert!(matches!(
        ingress.on_event(IngressEvent::TimedOut),
        IngressAction::Refuse {
            error: IngressError::ControlStreamTimeout,
            close_label: Some("mqtt-control-timeout"),
        }
    ));
    assert_eq!(ingress, Ingress::Refused);
}

fn refused_after_control(event: IngressEvent) -> (IngressError, Option<&'static str>) {
    let mut ingress = Ingress::begin(true);
    ingress.on_event(IngressEvent::Established);
    ingress.on_event(IngressEvent::ControlOpened { is_0rtt: true });
    match ingress.on_event(event) {
        IngressAction::Refuse { error, close_label } => (error, close_label),
        action => panic!("unexpected action: {action:?}"),
    }
}

#[test]
fn unverified_handshakes_are_refused() {
    let label = Some("tls-finished-verification-failed");
    assert_eq!(
        refused_after_control(IngressEvent::TimedOut),
        (IngressError::FinishedTimeout, label)
    );
    assert_eq!(
        refused_after_control(IngressEvent::Finished {
            has_handshake_data: false,
            close_reason: None
        }),
        (IngressError::HandshakeDataUnavailable, label)
    );
    assert_eq!(
        refused_after_control(IngressEvent::Finished {
            has_handshake_data: true,
            close_reason: Some("bad certificate".to_string())
        }),
        (IngressError::Unusable("bad certificate".to_string()), label)
    );
}

#[test]
fn connections_that_are_not_established_are_given_up() {
    let mut early = Ingress::begin(true);
    assert!(matches!(
        early.on_event(IngressEvent::EarlyRefused),
        IngressAction::Refuse { error: IngressError::EarlyStreamsUnavailable, close_label: None }
    ));
    let mut late = Ingress::begin(false);
    assert!(matches!(
        late.on_event(IngressEvent::TimedOut),
        IngressAction::Refuse { error: IngressError::ConnectionTimeout, close_label: None }
    ));
    let mut failed = Ingress::begin(false);
    assert!(matches!(
        failed.on_event(IngressEvent::Failed("reset".to_string())),
        IngressAction::Refuse { error: IngressError::Transport(_), close_label: None }
    ));
}

#[test]
fn activation_takes_a_written_connack() {
    let accepted = AcceptedQuicControl::new("stream", "connection", meta(true));
    assert!(accepted.meta().is_0rtt);
    let (socket, activation, meta) = accepted.into_parts();
    let accepted = AcceptedQuicMqtt::new(socket, activation, meta);
    let (stream, activation, meta) = accepted.into_parts();
    assert_eq!(stream, "stream");
    assert_eq!(meta.remote_addr.port, 9443);
    let committed = activation.commit(Ok(())).unwrap();
    assert_eq!(committed.into_connection(), "connection");

    let (_, activation, _) = AcceptedQuicControl::new(1, 2, meta).into_parts();
    assert_eq!(
        activation.commit(Err(LinkError::Transport("lost".to_string()))).err(),
        Some(LinkError::Transport("lost".to_string()))
    );
}

#[test]
fn stream_failures_are_told_once() {
    let mut failures = StreamFailures::new();
    assert_eq!(failures.take_read_error(), None);
    failures.remember_read_error(ReadFailure::Reset(7));
    failures.remember_write_error(Some(WriteFailure::Stopped(8)));
    assert_eq!(failures.take_read_error(), Some(ReadFailure::Reset(7)));
    assert_eq!(failures.take_read_error(), None);
    assert_eq!(failures.take_write_error(), Some(WriteFailure::Stopped(8)));
    failures.remember_write_error(Some(WriteFailure::ClosedStream));
    failures.remember_write_error(None);
    assert_eq!(failures.take_write_error(), None);
}
