//! Ingress of an MQTT-over-QUIC connection, up to the point where data streams may be opened.

use vstd::prelude::*;

use crate::addr::SocketAddr;
use crate::link::LinkError;
use crate::quic_link::{ReadFailure, WriteFailure};

verus! {

/// Application error code for connections that fail before MQTT begins.
pub const QUIC_HANDSHAKE_FAILURE_CODE: u32 = 0x4d51_5448;

/// Why a connection did not get as far as its control stream.
#[derive(Debug, PartialEq, Eq)]
pub enum IngressError {
    /// Streams cannot be processed before the handshake is complete.
    EarlyStreamsUnavailable,
    /// The connection was not established in time.
    ConnectionTimeout,
    /// The control stream was not opened in time.
    ControlStreamTimeout,
    /// The handshake was not completed in time.
    FinishedTimeout,
    /// The handshake left no data.
    HandshakeDataUnavailable,
    /// The handshake did not establish a usable connection, for the given reason.
    Unusable(String),
    /// The transport reported a failure in its own words.
    Transport(String),
}

/// How far the ingress of a connection has come.
#[derive(Clone, Copy, Debug, PartialEq, Eq, Structural)]
pub enum Ingress {
    /// The connection is being established; with `early`, streams are taken before the
    /// handshake is complete.
    Establishing { early: bool },
    /// The first stream of the peer is awaited.
    AwaitingControl { early: bool },
    /// The completion of the handshake is awaited.
    AwaitingFinished { is_0rtt: bool },
    /// The control stream has been accepted.
    Accepted { is_0rtt: bool },
    /// The connection has been given up.
    Refused,
}

/// What the ingress of a connection meets.
#[derive(Debug)]
pub enum IngressEvent {
    /// The connection can be used.
    Established,
    /// The connection cannot be used before the handshake is complete.
    EarlyRefused,
    /// What was awaited failed, in the transport's own words.
    Failed(String),
    /// What was awaited did not come in time.
    TimedOut,
    /// The peer has opened its first stream; `is_0rtt` says whether with early data.
    ControlOpened { is_0rtt: bool },
    /// The handshake is over: whether it left data, and why the connection is closed if it is.
    Finished { has_handshake_data: bool, close_reason: Option<String> },
}

/// What the ingress of a connection does next.
#[derive(Debug)]
pub enum IngressAction {
    /// It awaits the first stream of the peer.
    AwaitControl,
    /// It awaits the completion of the handshake.
    AwaitFinished,
    /// It accepts the control stream.
    Accept { is_0rtt: bool },
    /// It gives up, and closes the connection with the label where there is one.
    Refuse { error: IngressError, close_label: Option<&'static str> },
}

impl Ingress {
    /// Whether the event is one that the ingress awaits.
    pub open spec fn awaits(self, event: IngressEvent) -> bool {
        match self {
            Ingress::Establishing { early } => if early {
                event is Established || event is EarlyRefused
            } else {
                event is Established || event is Failed || event is TimedOut
            },
            Ingress::AwaitingControl { .. } => event is ControlOpened || event is Failed
                || event is TimedOut,
            Ingress::AwaitingFinished { .. } => event is Finished || event is TimedOut,
            _ => false,
        }
    }

    /// Whether the ingress gives the connection up on the event.
    pub open spec fn refuses(self, event: IngressEvent) -> bool {
        match event {
            IngressEvent::Established => false,
            IngressEvent::ControlOpened { .. } => false,
            IngressEvent::Finished { has_handshake_data, close_reason } => !has_handshake_data
                || close_reason is Some,
            _ => true,
        }
    }

    /// The ingress after an event.
    pub open spec fn after(self, event: IngressEvent) -> Ingress {
        if self.refuses(event) {
            Ingress::Refused
        } else {
            match (self, event) {
                (Ingress::Establishing { early }, _) => Ingress::AwaitingControl { early },
                (
                    Ingress::AwaitingControl { early },
                    IngressEvent::ControlOpened { is_0rtt },
                ) => if early {
                    Ingress::AwaitingFinished { is_0rtt }
                } else {
                    Ingress::Accepted { is_0rtt }
                },
                (Ingress::AwaitingFinished { is_0rtt }, _) => Ingress::Accepted { is_0rtt },
                _ => Ingress::Refused,
            }
        }
    }

    /// The error with which the ingress gives the connection up.
    pub open spec fn error(self, event: IngressEvent) -> IngressError {
        match event {
            IngressEvent::EarlyRefused => IngressError::EarlyStreamsUnavailable,
            IngressEvent::Failed(text) => IngressError::Transport(text),
            IngressEvent::Finished { has_handshake_data, close_reason } => if !has_handshake_data {
                IngressError::HandshakeDataUnavailable
            } else {
                IngressError::Unusable(close_reason->0)
            },
            _ => match self {
                Ingress::Establishing { .. } => IngressError::ConnectionTimeout,
                Ingress::AwaitingControl { .. } => IngressError::ControlStreamTimeout,
                _ => IngressError::FinishedTimeout,
            },
        }
    }

    /// The label with which a connection that is given up is closed, where it is closed at
    /// all.
    pub open spec fn label(self, event: IngressEvent) -> Option<Seq<char>> {
        match self {
            Ingress::AwaitingControl { .. } => if event is TimedOut {
                Some("mqtt-control-timeout"@)
            } else {
                None
            },
            Ingress::AwaitingFinished { .. } => Some("tls-finished-verification-failed"@),
            _ => None,
        }
    }

    /// Begins the ingress of a connection.
    pub fn begin(enable_quic_0rtt: bool) -> (ingress: Ingress)
        ensures
            ingress == (Ingress::Establishing { early: enable_quic_0rtt }),
    {
        Ingress::Establishing { early: enable_quic_0rtt }
    }

    /// Takes up an event, and tells what is done next.
    pub fn on_event(&mut self, event: IngressEvent) -> (action: IngressAction)
        requires
            old(self).awaits(event),
        ensures
            *final(self) == old(self).after(event),
            match action {
                IngressAction::AwaitControl => *final(self) is AwaitingControl,
                IngressAction::AwaitFinished => *final(self) is AwaitingFinished,
                IngressAction::Accept { is_0rtt } => *final(self) == (Ingress::Accepted {
                    is_0rtt,
                }),
                IngressAction::Refuse { error, close_label } => {
                    &&& *final(self) is Refused
                    &&& error == old(self).error(event)
                    &&& match close_label {
                        Some(label) => old(self).label(event) == Some(label@),
                        None => old(self).label(event) is None,
                    }
                },
            },
    {
        let ingress = *self;
        match (ingress, event) {
            (Ingress::Establishing { early }, IngressEvent::Established) => {
                *self = Ingress::AwaitingControl { early };
                IngressAction::AwaitControl
            },
            (Ingress::Establishing { .. }, IngressEvent::EarlyRefused) => self.refuse(
                IngressError::EarlyStreamsUnavailable,
                None,
            ),
            (Ingress::Establishing { .. }, IngressEvent::Failed(text)) => self.refuse(
                IngressError::Transport(text),
                None,
            ),
            (Ingress::Establishing { .. }, _) => self.refuse(IngressError::ConnectionTimeout, None),
            (Ingress::AwaitingControl { early }, IngressEvent::ControlOpened { is_0rtt }) => {
                if early {
                    *self = Ingress::AwaitingFinished { is_0rtt };
                    return IngressAction::AwaitFinished;
                }
                *self = Ingress::Accepted { is_0rtt };
                IngressAction::Accept { is_0rtt }
            },
            (Ingress::AwaitingControl { .. }, IngressEvent::Failed(text)) => self.refuse(
                IngressError::Transport(text),
                None,
            ),
            (Ingress::AwaitingControl { .. }, _) => self.refuse(
                IngressError::ControlStreamTimeout,
                Some("mqtt-control-timeout"),
            ),
            (
                Ingress::AwaitingFinished { is_0rtt },
                IngressEvent::Finished { has_handshake_data, close_reason },
            ) => {
                if !has_handshake_data {
                    return self.refuse(
                        IngressError::HandshakeDataUnavailable,
                        Some("tls-finished-verification-failed"),
                    );
                }
                if let Some(reason) = close_reason {
                    return self.refuse(
                        IngressError::Unusable(reason),
                        Some("tls-finished-verification-failed"),
                    );
                }
                *self = Ingress::Accepted { is_0rtt };
                IngressAction::Accept { is_0rtt }
            },
            _ => self.refuse(
                IngressError::FinishedTimeout,
                Some("tls-finished-verification-failed"),
            ),
        }
    }

    fn refuse(&mut self, error: IngressError, close_label: Option<&'static str>) -> (action:
        IngressAction)
        ensures
            *final(self) == Ingress::Refused,
            action == (IngressAction::Refuse { error, close_label }),
    {
        *self = Ingress::Refused;
        IngressAction::Refuse { error, close_label }
    }
}

/// Metadata collected while accepting the MQTT control stream.
#[derive(Clone, Copy, Debug, PartialEq, Eq, Structural)]
pub struct QuicIngressMeta {
    /// Whether the accepted control stream carried QUIC 0-RTT data.
    ///
    /// The server exposes this only after the TLS Finished barrier has completed.
    pub is_0rtt: bool,
    /// Address of the remote QUIC endpoint.
    pub remote_addr: SocketAddr,
}

/// A verified MQTT control stream which has not yet completed MQTT CONNECT/CONNACK.
#[derive(Debug)]
pub struct AcceptedQuicControl<S, C> {
    socket: S,
    activation: QuicActivation<C>,
    meta: QuicIngressMeta,
}

impl<S, C> AcceptedQuicControl<S, C> {
    /// The control stream.
    pub closed spec fn socket(self) -> S {
        self.socket
    }

    /// The connection.
    pub closed spec fn connection(self) -> C {
        self.activation.connection
    }

    /// The metadata.
    pub closed spec fn meta_view(self) -> QuicIngressMeta {
        self.meta
    }

    /// Puts the accepted control stream and its connection together.
    pub fn new(socket: S, connection: C, meta: QuicIngressMeta) -> (accepted: Self)
        ensures
            accepted.socket() == socket,
            accepted.connection() == connection,
            accepted.meta_view() == meta,
    {
        AcceptedQuicControl { socket, activation: QuicActivation { connection }, meta }
    }

    /// Returns metadata captured while accepting the control stream.
    pub fn meta(&self) -> (meta: QuicIngressMeta)
        ensures
            meta == self.meta_view(),
    {
        self.meta
    }

    /// Separates the control stream, the activation handle, and the metadata.
    pub fn into_parts(self) -> (parts: (S, QuicActivation<C>, QuicIngressMeta))
        ensures
            parts.0 == self.socket(),
            parts.1.connection() == self.connection(),
            parts.2 == self.meta_view(),
    {
        (self.socket, self.activation, self.meta)
    }
}

/// A verified, version-detected MQTT control stream and its post-CONNACK activation handle.
#[derive(Debug)]
pub struct AcceptedQuicMqtt<S, C> {
    stream: S,
    activation: QuicActivation<C>,
    meta: QuicIngressMeta,
}

impl<S, C> AcceptedQuicMqtt<S, C> {
    /// The control stream.
    pub closed spec fn stream(self) -> S {
        self.stream
    }

    /// The connection.
    pub closed spec fn connection(self) -> C {
        self.activation.connection
    }

    /// The metadata.
    pub closed spec fn meta_view(self) -> QuicIngressMeta {
        self.meta
    }

    /// Puts the version-detected control stream and its activation handle together.
    pub fn new(stream: S, activation: QuicActivation<C>, meta: QuicIngressMeta) -> (accepted: Self)
        ensures
            accepted.stream() == stream,
            accepted.connection() == activation.connection(),
            accepted.meta_view() == meta,
    {
        AcceptedQuicMqtt { stream, activation, meta }
    }

    /// Separates the MQTT control stream, post-CONNACK activation handle, and ingress metadata.
    pub fn into_parts(self) -> (parts: (S, QuicActivation<C>, QuicIngressMeta))
        ensures
            parts.0 == self.stream(),
            parts.1.connection() == self.connection(),
            parts.2 == self.meta_view(),
    {
        (self.stream, self.activation, self.meta)
    }
}

/// Owns connection-level QUIC state that may only be activated after MQTT CONNACK commits.
#[derive(Debug)]
pub struct QuicActivation<C> {
    connection: C,
}

impl<C> QuicActivation<C> {
    /// The connection.
    pub closed spec fn connection(self) -> C {
        self.connection
    }

    /// Mints the activation token once the CONNACK has been sent and flushed.
    pub fn commit(self, written: Result<(), LinkError>) -> (committed: Result<
        ConnackCommitted<C>,
        LinkError,
    >)
        ensures
            match (written, committed) {
                (Ok(_), Ok(token)) => token.connection() == self.connection(),
                (Err(error), Err(returned)) => returned == error,
                _ => false,
            },
    {
        match written {
            Ok(()) => Ok(ConnackCommitted { activation: self }),
            Err(error) => Err(error),
        }
    }
}

/// Proof that the successful MQTT CONNACK was submitted and flushed on the Control Flow.
#[derive(Debug)]
pub struct ConnackCommitted<C> {
    activation: QuicActivation<C>,
}

impl<C> ConnackCommitted<C> {
    /// The connection.
    pub closed spec fn connection(self) -> C {
        self.activation.connection
    }

    /// Gives the connection up for activation.
    pub fn into_connection(self) -> (connection: C)
        ensures
            connection == self.connection(),
    {
        self.activation.connection
    }
}

/// What a stream remembers of its failures, until somebody asks.
#[derive(Clone, Copy, Debug, PartialEq, Eq, Structural)]
pub struct StreamFailures {
    /// Failure of the last read.
    pub last_read_error: Option<ReadFailure>,
    /// Failure of the last write.
    pub last_write_error: Option<WriteFailure>,
}

impl StreamFailures {
    /// Creates a memory without failures.
    pub fn new() -> (failures: StreamFailures)
        ensures
            failures.last_read_error is None,
            failures.last_write_error is None,
    {
        StreamFailures { last_read_error: None, last_write_error: None }
    }

    /// Remembers a failure to read.
    pub fn remember_read_error(&mut self, error: ReadFailure)
        ensures
            *final(self) == (StreamFailures { last_read_error: Some(error), ..*old(self) }),
    {
        self.last_read_error = Some(error);
    }

    /// Remembers a failure to write; one that does not come from the stream is forgotten.
    pub fn remember_write_error(&mut self, error: Option<WriteFailure>)
        ensures
            *final(self) == (StreamFailures { last_write_error: error, ..*old(self) }),
    {
        self.last_write_error = error;
    }

    /// Returns the remembered failure to read, and forgets it.
    pub fn take_read_error(&mut self) -> (error: Option<ReadFailure>)
        ensures
            error == old(self).last_read_error,
            *final(self) == (StreamFailures { last_read_error: None, ..*old(self) }),
    {
        let error = self.last_read_error;
        self.last_read_error = None;
        error
    }

    /// Returns the remembered failure to write, and forgets it.
    pub fn take_write_error(&mut self) -> (error: Option<WriteFailure>)
        ensures
            error == old(self).last_write_error,
            *final(self) == (StreamFailures { last_write_error: None, ..*old(self) }),
    {
        let error = self.last_write_error;
        self.last_write_error = None;
        error
    }
}

/// A stream that was opened with early data is not accepted before the handshake has been
/// completed and has left a usable connection; what is reported of it is what it was.
pub proof fn early_data_waits_for_the_handshake(
    established: IngressEvent,
    opened: IngressEvent,
    finished: IngressEvent,
    early: bool,
)
    requires
        established is Established,
        opened is ControlOpened,
        finished is Finished || finished is TimedOut,
    ensures
        ({
            let first = (Ingress::Establishing { early }).after(established).after(opened);
            let is_0rtt = opened->ControlOpened_is_0rtt;
            if early {
                &&& first == (Ingress::AwaitingFinished { is_0rtt })
                &&& match first.after(finished) {
                    Ingress::Accepted { is_0rtt: reported } => reported == is_0rtt
                        && finished is Finished && !first.refuses(finished),
                    other => other == Ingress::Refused && first.label(finished) is Some,
                }
            } else {
                first == (Ingress::Accepted { is_0rtt })
            }
        }),
{
}

/// A connection that can be used is taken as far as its control stream, and nothing that goes
/// well gives it up: without early data the stream is accepted as soon as it is opened, with
/// early data once the handshake has left data and no reason to close.
pub proof fn usable_connections_are_accepted(early: bool, is_0rtt: bool)
    ensures
        (Ingress::Establishing { early }).awaits(IngressEvent::Established),
        (Ingress::Establishing { early }).after(IngressEvent::Established) == (
        Ingress::AwaitingControl { early }),
        (Ingress::AwaitingControl { early }).awaits(IngressEvent::ControlOpened { is_0rtt }),
        (Ingress::AwaitingControl { early: false }).after(IngressEvent::ControlOpened { is_0rtt })
            == (Ingress::Accepted { is_0rtt }),
        (Ingress::AwaitingControl { early: true }).after(IngressEvent::ControlOpened { is_0rtt })
            == (Ingress::AwaitingFinished { is_0rtt }),
        (Ingress::AwaitingFinished { is_0rtt }).awaits(
            IngressEvent::Finished { has_handshake_data: true, close_reason: None },
        ),
        (Ingress::AwaitingFinished { is_0rtt }).after(
            IngressEvent::Finished { has_handshake_data: true, close_reason: None },
        ) == (Ingress::Accepted { is_0rtt }),
{
}

/// A connection is given up wherever something fails, with an error that says what failed: a
/// timeout names what was awaited, the transport's own words are kept, and a handshake that
/// left no data is told from one that left a connection which is closed.
pub proof fn ingress_failures_are_told_apart(
    early: bool,
    is_0rtt: bool,
    has_handshake_data: bool,
    text: String,
)
    ensures
        (Ingress::Establishing { early: false }).awaits(IngressEvent::TimedOut),
        (Ingress::Establishing { early }).after(IngressEvent::TimedOut) == Ingress::Refused,
        (Ingress::Establishing { early }).error(IngressEvent::TimedOut)
            == IngressError::ConnectionTimeout,
        (Ingress::Establishing { early: false }).awaits(IngressEvent::Failed(text)),
        (Ingress::Establishing { early }).after(IngressEvent::Failed(text)) == Ingress::Refused,
        (Ingress::Establishing { early }).error(IngressEvent::Failed(text))
            == IngressError::Transport(text),
        (Ingress::Establishing { early: true }).awaits(IngressEvent::EarlyRefused),
        (Ingress::Establishing { early: true }).after(IngressEvent::EarlyRefused)
            == Ingress::Refused,
        (Ingress::Establishing { early: true }).error(IngressEvent::EarlyRefused)
            == IngressError::EarlyStreamsUnavailable,
        (Ingress::AwaitingControl { early }).awaits(IngressEvent::TimedOut),
        (Ingress::AwaitingControl { early }).after(IngressEvent::TimedOut) == Ingress::Refused,
        (Ingress::AwaitingControl { early }).error(IngressEvent::TimedOut)
            == IngressError::ControlStreamTimeout,
        (Ingress::AwaitingControl { early }).awaits(IngressEvent::Failed(text)),
        (Ingress::AwaitingControl { early }).after(IngressEvent::Failed(text)) == Ingress::Refused,
        (Ingress::AwaitingControl { early }).error(IngressEvent::Failed(text))
            == IngressError::Transport(text),
        (Ingress::AwaitingFinished { is_0rtt }).awaits(IngressEvent::TimedOut),
        (Ingress::AwaitingFinished { is_0rtt }).after(IngressEvent::TimedOut) == Ingress::Refused,
        (Ingress::AwaitingFinished { is_0rtt }).error(IngressEvent::TimedOut)
            == IngressError::FinishedTimeout,
        (Ingress::AwaitingFinished { is_0rtt }).after(
            IngressEvent::Finished { has_handshake_data: false, close_reason: None },
        ) == Ingress::Refused,
        (Ingress::AwaitingFinished { is_0rtt }).error(
            IngressEvent::Finished { has_handshake_data: false, close_reason: None },
        ) == IngressError::HandshakeDataUnavailable,
        (Ingress::AwaitingFinished { is_0rtt }).after(
            IngressEvent::Finished { has_handshake_data, close_reason: Some(text) },
        ) == Ingress::Refused,
        (Ingress::AwaitingFinished { is_0rtt }).error(
            IngressEvent::Finished { has_handshake_data: true, close_reason: Some(text) },
        ) == IngressError::Unusable(text),
{
}

/// A connection that is given up is closed with a label where its peer still waits for
/// something: when it did not open its control stream in time, and when its handshake did not
/// end well. Before that nothing is closed.
pub proof fn given_up_connections_are_closed(
    early: bool,
    is_0rtt: bool,
    event: IngressEvent,
    text: String,
)
    ensures
        (Ingress::Establishing { early }).label(event) is None,
        (Ingress::AwaitingControl { early }).label(IngressEvent::TimedOut) == Some(
            "mqtt-control-timeout"@,
        ),
        (Ingress::AwaitingControl { early }).label(IngressEvent::Failed(text)) is None,
        (Ingress::AwaitingFinished { is_0rtt }).label(event) == Some(
            "tls-finished-verification-failed"@,
        ),
        QUIC_HANDSHAKE_FAILURE_CODE == 0x4d51_5448,
{
}

/// Once a connection has been accepted or given up, its ingress awaits nothing more.
pub proof fn finished_ingress_awaits_nothing(event: IngressEvent, is_0rtt: bool)
    ensures
        !(Ingress::Accepted { is_0rtt }).awaits(event),
        !Ingress::Refused.awaits(event),
{
}

} // verus!
