//! How a session runs while it is connected, and how it ends.

use vstd::prelude::*;

use crate::identity::MessageSource;
use crate::link::{ConnectionCloseReason, FlowId, LinkError, ReplyPath};
use crate::offline::OfflineInfo;
use crate::packet::{DisconnectReasonCode, DisconnectV5, Packet, ProtocolVersion, Publish};
use crate::reason::{ProtocolError, Reason};
use crate::session::{SessionState, SessionView, StateFlags};
use crate::session_link::SessionLinkEvent;
use crate::subscribe::{Subscribe, Unsubscribe};
use crate::time::Duration;

verus! {

/// Seconds that a session without keep-alive may stay silent.
pub const NO_KEEPALIVE_SECS: u64 = 4_294_967_295;

/// Seconds after which a session looks again for messages to retransmit where none is due.
pub const IDLE_RETRANSMIT_SECS: u64 = 120;

/// Returns the span in which a packet of the client has to arrive; keep-alive 0 stands for
/// none.
pub fn keep_alive_interval(keep_alive: u16) -> (span: Duration)
    ensures
        span.nanos == (if keep_alive == 0 {
            NO_KEEPALIVE_SECS
        } else {
            keep_alive as u64
        }) * 1_000_000_000,
{
    if keep_alive == 0 {
        Duration::from_secs(NO_KEEPALIVE_SECS)
    } else {
        Duration::from_secs(keep_alive as u64)
    }
}

/// Returns the span after which messages of the send window are looked at; `due` is the span
/// until the first of them is due.
pub fn retransmission_delay(due: Option<Duration>) -> (span: Duration)
    ensures
        match due {
            Some(due) => span == due,
            None => span.nanos == IDLE_RETRANSMIT_SECS * 1_000_000_000,
        },
{
    match due {
        Some(due) => due,
        None => Duration::from_secs(IDLE_RETRANSMIT_SECS),
    }
}

/// Something that happens to a connected session.
#[derive(Debug)]
pub enum LoopEvent {
    /// No packet came in time.
    KeepAliveExpired,
    /// Messages of the send window may be due.
    RetransmissionDue,
    /// The queue gave a message, gave none, or was closed.
    Queue(Option<Option<(MessageSource, Publish)>>),
    /// The mailbox gave a message, or was closed.
    Mailbox(Option<Message>),
    /// The link reported something, ended, or failed.
    Link(Result<Option<SessionLinkEvent>, LinkError>),
}

/// What a connected session does about an event.
#[allow(inconsistent_fields)]
#[derive(Debug)]
pub enum LoopAction {
    /// Nothing.
    Wait,
    /// Retransmit the messages of the send window that are due.
    Retransmit,
    /// Deliver a message.
    Deliver(MessageSource, Publish),
    /// Look at a message of the mailbox.
    Process(Message),
    /// Handle a packet.
    Handle {
        /// The packet.
        packet: Packet,
        /// Path on which replies must be sent.
        reply_path: ReplyPath,
    },
    /// Close the connection and end the session.
    CloseAndEnd {
        /// Why the connection is closed.
        close: ConnectionCloseReason,
        /// Why the session ends.
        reason: Reason,
    },
    /// End the session.
    End(Reason),
}

/// What a connected session does about an event.
pub open spec fn loop_action(state: SessionView, event: LoopEvent) -> LoopAction {
    match event {
        LoopEvent::KeepAliveExpired => LoopAction::End(Reason::ConnectKeepaliveTimeout),
        LoopEvent::RetransmissionDue => LoopAction::Retransmit,
        LoopEvent::Queue(Some(Some((from, publish)))) => LoopAction::Deliver(from, publish),
        LoopEvent::Queue(Some(None)) => LoopAction::Wait,
        LoopEvent::Queue(None) => LoopAction::End(Reason::MessageQueueClosed),
        LoopEvent::Mailbox(Some(message)) => LoopAction::Process(message),
        LoopEvent::Mailbox(None) => LoopAction::End(Reason::MailboxClosed),
        LoopEvent::Link(Err(error)) => LoopAction::End(Reason::Link(error)),
        LoopEvent::Link(Ok(None)) => LoopAction::End(Reason::ConnectRemoteClose),
        LoopEvent::Link(Ok(Some(SessionLinkEvent::Packet { packet, reply_path }))) => {
            LoopAction::Handle { packet, reply_path }
        },
        LoopEvent::Link(Ok(Some(SessionLinkEvent::FlowClosed { flow_id, .. }))) => {
            if crate::route::flow_in_use(state.routes, flow_id) {
                LoopAction::CloseAndEnd {
                    close: ConnectionCloseReason::StatefulFlowFailure,
                    reason: Reason::ProtocolError(ProtocolError::TransactionLost(flow_id)),
                }
            } else {
                LoopAction::Wait
            }
        },
        LoopEvent::Link(Ok(Some(SessionLinkEvent::ConnectionClosed { .. }))) => {
            LoopAction::End(Reason::ConnectRemoteClose)
        },
    }
}

/// What an event leaves of a connected session: with a data flow that carried no transaction
/// its bindings go.
pub open spec fn after_loop_event(state: SessionView, event: LoopEvent) -> SessionView {
    match event {
        LoopEvent::Link(Ok(Some(SessionLinkEvent::FlowClosed { flow_id, .. }))) => {
            if crate::route::flow_in_use(state.routes, flow_id) {
                state
            } else {
                SessionView {
                    bindings: crate::subscription_binding::without_flow(state.bindings, flow_id),
                    ..state
                }
            }
        },
        _ => state,
    }
}

/// A message in the mailbox of a session. Where somebody may be waiting for an answer,
/// `awaited` says whether they still are.
#[allow(inconsistent_fields)]
#[derive(Debug)]
pub enum Message {
    /// Deliver a message.
    Forward(MessageSource, Publish),
    /// Give the session up to another connection or to an administrator.
    Kick {
        /// Whether the asker still waits.
        awaited: bool,
        /// Whether the session that takes over starts clean.
        clean_start: bool,
        /// Whether an administrator asks.
        is_admin: bool,
    },
    /// Make a subscription and answer.
    Subscribe(Subscribe),
    /// Make subscriptions and answer.
    Subscribes(Vec<Subscribe>),
    /// End a subscription and answer.
    Unsubscribe(Unsubscribe),
    /// Take over the state of an earlier session.
    SessionStateTransfer(OfflineInfo, bool),
    /// End for the reason.
    Closed(Reason),
}

/// What a session does about a message of its mailbox.
#[derive(Debug)]
pub enum MessageAction {
    /// Nothing.
    Wait,
    /// Put the message into the queue; where the queue has no room it is reported dropped.
    Enqueue(MessageSource, Publish),
    /// Answer the asker, and end for the reason.
    AnswerAndEnd(Reason),
    /// Make a subscription and answer.
    Subscribe(Subscribe),
    /// Make subscriptions, in order, and answer.
    Subscribes(Vec<Subscribe>),
    /// End a subscription and answer.
    Unsubscribe(Unsubscribe),
    /// Take over the state of an earlier session, without its subscriptions where it starts
    /// clean.
    Transfer(OfflineInfo, bool),
    /// End for the reason.
    End(Reason),
}

/// What a connected session does about a message of its mailbox.
pub open spec fn message_action(message: Message) -> MessageAction {
    match message {
        Message::Forward(from, publish) => MessageAction::Enqueue(from, publish),
        Message::Kick { awaited, is_admin, .. } => if awaited {
            MessageAction::AnswerAndEnd(Reason::ConnectKicked(is_admin))
        } else {
            MessageAction::Wait
        },
        Message::Subscribe(sub) => MessageAction::Subscribe(sub),
        Message::Subscribes(subs) => MessageAction::Subscribes(subs),
        Message::Unsubscribe(unsub) => MessageAction::Unsubscribe(unsub),
        Message::SessionStateTransfer(info, clean_start) => MessageAction::Transfer(
            info,
            clean_start,
        ),
        Message::Closed(reason) => MessageAction::End(reason),
    }
}

/// The flags after a message of the mailbox: a kick counts only where the asker still waits.
pub open spec fn flags_after_message(flags: StateFlags, message: Message) -> StateFlags {
    match message {
        Message::Kick { awaited, clean_start, is_admin } => if awaited {
            flags.after_kick(clean_start, is_admin)
        } else {
            flags
        },
        _ => flags,
    }
}

impl SessionState {
    /// Returns what is done about an event, and forgets the bindings of a flow that ended
    /// without transactions on it.
    pub fn on_loop_event(&mut self, event: LoopEvent) -> (action: LoopAction)
        requires
            old(self).wf(),
        ensures
            action == loop_action(old(self)@, event),
            final(self)@ == after_loop_event(old(self)@, event),
            final(self).wf(),
            final(self).same_settings(old(self)),
    {
        match event {
            LoopEvent::KeepAliveExpired => LoopAction::End(Reason::ConnectKeepaliveTimeout),
            LoopEvent::RetransmissionDue => LoopAction::Retransmit,
            LoopEvent::Queue(Some(Some((from, publish)))) => LoopAction::Deliver(from, publish),
            LoopEvent::Queue(Some(None)) => LoopAction::Wait,
            LoopEvent::Queue(None) => LoopAction::End(Reason::MessageQueueClosed),
            LoopEvent::Mailbox(Some(message)) => LoopAction::Process(message),
            LoopEvent::Mailbox(None) => LoopAction::End(Reason::MailboxClosed),
            LoopEvent::Link(Err(error)) => LoopAction::End(Reason::Link(error)),
            LoopEvent::Link(Ok(None)) => LoopAction::End(Reason::ConnectRemoteClose),
            LoopEvent::Link(Ok(Some(SessionLinkEvent::Packet { packet, reply_path }))) => {
                LoopAction::Handle { packet, reply_path }
            },
            LoopEvent::Link(Ok(Some(SessionLinkEvent::FlowClosed { flow_id, reason: _ }))) => {
                self.on_flow_closed(flow_id)
            },
            LoopEvent::Link(Ok(Some(SessionLinkEvent::ConnectionClosed { reason: _ }))) => {
                LoopAction::End(Reason::ConnectRemoteClose)
            },
        }
    }

    fn on_flow_closed(&mut self, flow_id: FlowId) -> (action: LoopAction)
        requires
            old(self).wf(),
        ensures
            action == (if crate::route::flow_in_use(old(self)@.routes, flow_id) {
                LoopAction::CloseAndEnd {
                    close: ConnectionCloseReason::StatefulFlowFailure,
                    reason: Reason::ProtocolError(ProtocolError::TransactionLost(flow_id)),
                }
            } else {
                LoopAction::Wait
            }),
            final(self)@ == (if crate::route::flow_in_use(old(self)@.routes, flow_id) {
                old(self)@
            } else {
                SessionView {
                    bindings: crate::subscription_binding::without_flow(
                        old(self)@.bindings,
                        flow_id,
                    ),
                    ..old(self)@
                }
            }),
            final(self).wf(),
            final(self).same_settings(old(self)),
    {
        if self.routes.has_flow_entries(flow_id) {
            return LoopAction::CloseAndEnd {
                close: ConnectionCloseReason::StatefulFlowFailure,
                reason: Reason::ProtocolError(ProtocolError::TransactionLost(flow_id)),
            };
        }
        self.subscription_bindings.remove_flow(flow_id);
        LoopAction::Wait
    }

    /// Returns what is done about a message of the mailbox, and records a kick.
    pub fn on_mailbox_message(&mut self, message: Message) -> (action: MessageAction)
        ensures
            action == message_action(message),
            final(self)@ == (SessionView {
                flags: flags_after_message(old(self)@.flags, message),
                ..old(self)@
            }),
            final(self).wf() == old(self).wf(),
            final(self).same_settings(old(self)),
    {
        match message {
            Message::Forward(from, publish) => MessageAction::Enqueue(from, publish),
            Message::Kick { awaited, clean_start, is_admin } => {
                if awaited {
                    self.flags.kick(clean_start, is_admin);
                    MessageAction::AnswerAndEnd(Reason::ConnectKicked(is_admin))
                } else {
                    MessageAction::Wait
                }
            },
            Message::Subscribe(sub) => MessageAction::Subscribe(sub),
            Message::Subscribes(subs) => MessageAction::Subscribes(subs),
            Message::Unsubscribe(unsub) => MessageAction::Unsubscribe(unsub),
            Message::SessionStateTransfer(info, clean_start) => MessageAction::Transfer(
                info,
                clean_start,
            ),
            Message::Closed(reason) => MessageAction::End(reason),
        }
    }
}

/// The CONNECT of a session as far as it decides how long the session lives.
#[derive(Clone, Copy, Debug, PartialEq, Eq, Structural)]
pub enum ConnectKind {
    /// MQTT 3.
    V3 {
        /// Whether the session ends with the connection.
        clean_session: bool,
    },
    /// MQTT 5, where the session lives for its expiry interval.
    V5,
}

/// Whether a session ends with its connection; one whose CONNECT is not known does.
pub open spec fn ends_with_connection(
    connect: Option<ConnectKind>,
    session_expiry_interval: Duration,
) -> bool {
    match connect {
        Some(ConnectKind::V3 { clean_session }) => clean_session,
        Some(ConnectKind::V5) => session_expiry_interval.nanos == 0,
        None => true,
    }
}

/// Returns whether a session ends with its connection.
pub fn clean_session(connect: Option<ConnectKind>, session_expiry_interval: Duration) -> (clean:
    bool)
    ensures
        clean == ends_with_connection(connect, session_expiry_interval),
{
    match connect {
        Some(ConnectKind::V3 { clean_session }) => clean_session,
        Some(ConnectKind::V5) => session_expiry_interval.is_zero(),
        None => true,
    }
}

/// Whether the will message of a session is published when its connection ends: not after
/// DISCONNECT, nor where another connection takes the session over and goes on with it.
pub open spec fn will_is_due(flags: StateFlags, clean_session: bool) -> bool {
    !flags.disconnect_received && !(flags.kicked && !flags.clean_start && !clean_session)
}

/// Returns whether the will message of a session is published when its connection ends.
pub fn last_will_enable(flags: StateFlags, clean_session: bool) -> (due: bool)
    ensures
        due == will_is_due(flags, clean_session),
{
    let session_present: bool = flags.kicked && !flags.clean_start && !clean_session;
    !(flags.disconnect_received || session_present)
}

/// What becomes of the will message when the connection of a session ends.
#[derive(Clone, Copy, Debug, PartialEq, Eq, Structural)]
pub enum WillPlan {
    /// It is discarded.
    Discard,
    /// It is published at once.
    Publish,
    /// It is published after the delay, or when the session expires before that.
    Delay(Duration),
}

/// What becomes of the will message when the connection of a session ends.
pub open spec fn will_plan(
    flags: StateFlags,
    clean_session: bool,
    will_delay_interval: Option<Duration>,
) -> WillPlan {
    if !will_is_due(flags, clean_session) {
        WillPlan::Discard
    } else {
        match will_delay_interval {
            Some(delay) => if clean_session {
                WillPlan::Publish
            } else {
                WillPlan::Delay(delay)
            },
            None => WillPlan::Publish,
        }
    }
}

/// Returns what becomes of the will message when the connection of a session ends.
pub fn plan_will(
    flags: StateFlags,
    clean_session: bool,
    will_delay_interval: Option<Duration>,
) -> (plan: WillPlan)
    ensures
        plan == will_plan(flags, clean_session, will_delay_interval),
{
    if !last_will_enable(flags, clean_session) {
        return WillPlan::Discard;
    }
    match will_delay_interval {
        Some(delay) => if clean_session {
            WillPlan::Publish
        } else {
            WillPlan::Delay(delay)
        },
        None => WillPlan::Publish,
    }
}

/// What becomes of a session whose connection has ended.
#[derive(Clone, Copy, Debug, PartialEq, Eq, Structural)]
pub enum Ending {
    /// Another connection has it.
    TakenOver,
    /// It is cleaned, for the reasons for which the connection ended.
    Clean,
    /// It goes on without a connection.
    GoOffline,
}

/// What becomes of a session whose connection has ended.
pub open spec fn ending_of(flags: StateFlags, clean_session: bool) -> Ending {
    if flags.kicked {
        if flags.by_admin_kick {
            Ending::Clean
        } else {
            Ending::TakenOver
        }
    } else if clean_session {
        Ending::Clean
    } else {
        Ending::GoOffline
    }
}

/// How a session ends its time online.
///
/// The parts are done in the order of the fields, once the link has been closed and the end of
/// the connection recorded.
#[derive(Clone, Copy, Debug, PartialEq, Eq, Structural)]
pub struct Shutdown {
    /// What becomes of the will message.
    pub will: WillPlan,
    /// Whether the connection ended for a reason that nobody has recorded, so that it counts
    /// as closed by the peer.
    pub add_remote_close: bool,
    /// Whether the client is sent DISCONNECT.
    pub send_disconnect: bool,
    /// What becomes of the session.
    pub ending: Ending,
}

/// Returns how a session ends its time online.
pub fn plan_shutdown(
    flags: StateFlags,
    clean_session: bool,
    will_delay_interval: Option<Duration>,
    has_reason: bool,
    protocol: ProtocolVersion,
) -> (plan: Shutdown)
    ensures
        plan == (Shutdown {
            will: will_plan(flags, clean_session, will_delay_interval),
            add_remote_close: !has_reason,
            send_disconnect: protocol == ProtocolVersion::MQTT5,
            ending: ending_of(flags, clean_session),
        }),
{
    let ending = if flags.kicked {
        if flags.by_admin_kick {
            Ending::Clean
        } else {
            Ending::TakenOver
        }
    } else if clean_session {
        Ending::Clean
    } else {
        Ending::GoOffline
    };
    Shutdown {
        will: plan_will(flags, clean_session, will_delay_interval),
        add_remote_close: !has_reason,
        send_disconnect: protocol == ProtocolVersion::MQTT5,
        ending,
    }
}

/// Returns the DISCONNECT with which the connection of an MQTT 5 client is ended: `own` where
/// the DISCONNECT of the client is the only reason, else one that carries the code and the
/// text of the reason.
pub fn farewell(own: Option<DisconnectV5>, code: DisconnectReasonCode, text: String) -> (packet:
    DisconnectV5)
    ensures
        match own {
            Some(own) => packet == own,
            None => packet.reason_code == code && packet.reason_string == Some(text)
                && packet.session_expiry_interval_secs is None && packet.server_reference is None
                && packet.user_properties@.len() == 0,
        },
{
    match own {
        Some(own) => own,
        None => {
            let mut packet = DisconnectV5::new(code);
            packet.reason_string = Some(text);
            packet
        },
    }
}

/// Returns whether the hooks are told about the windows of a session that goes offline:
/// `inflight` messages in its send window, `inbound` identifiers in its receive window.
pub fn reports_offline_windows(inflight: usize, inbound: usize) -> (told: bool)
    ensures
        told == (inflight != 0 || inbound != 0),
{
    inflight != 0 || inbound != 0
}

/// State of a session without a connection.
#[derive(Clone, Copy, Debug, PartialEq, Eq, Structural)]
pub struct OfflineState {
    /// What has happened to the session.
    pub flags: StateFlags,
    /// Whether the will message is still to be published.
    pub will_pending: bool,
}

/// Something that happens to a session without a connection.
#[derive(Debug)]
pub enum OfflineEvent {
    /// The mailbox gave a message, or was closed.
    Mailbox(Option<Message>),
    /// The lifetime of the session is over.
    SessionExpired,
    /// The delay of the will message is over.
    WillDelayElapsed,
}

/// What a session without a connection does about an event.
#[derive(Debug)]
pub enum OfflineAction {
    /// Nothing.
    Wait,
    /// Tell the hooks about the message, and put it into the queue; where the queue has no
    /// room it is reported dropped.
    Enqueue(MessageSource, Publish),
    /// Start the delay of the will message anew with the lifetime of the session, after
    /// publishing the will message where `publish_will`.
    RestartWillDelay {
        /// Whether the will message is published.
        publish_will: bool,
    },
    /// Answer the asker and end.
    AnswerAndEnd,
    /// End, after publishing the will message where `publish_will`.
    End {
        /// Whether the will message is published.
        publish_will: bool,
    },
}

impl OfflineState {
    /// The state of a session that has just gone offline.
    pub open spec fn begun(flags: StateFlags, will: WillPlan) -> OfflineState {
        OfflineState { flags, will_pending: will is Delay }
    }

    /// What is done about an event.
    pub open spec fn action(self, event: OfflineEvent) -> OfflineAction {
        match event {
            OfflineEvent::Mailbox(None) => OfflineAction::End { publish_will: false },
            OfflineEvent::Mailbox(Some(Message::Forward(from, publish))) => OfflineAction::Enqueue(
                from,
                publish,
            ),
            OfflineEvent::Mailbox(Some(Message::Kick { awaited, .. })) => if awaited {
                OfflineAction::AnswerAndEnd
            } else {
                OfflineAction::Wait
            },
            OfflineEvent::Mailbox(Some(_)) => OfflineAction::Wait,
            OfflineEvent::SessionExpired => OfflineAction::End { publish_will: self.will_pending },
            OfflineEvent::WillDelayElapsed => OfflineAction::RestartWillDelay {
                publish_will: self.will_pending,
            },
        }
    }

    /// The state after an event.
    pub open spec fn after(self, event: OfflineEvent) -> OfflineState {
        match event {
            OfflineEvent::Mailbox(Some(message)) => OfflineState {
                flags: flags_after_message(self.flags, message),
                ..self
            },
            OfflineEvent::WillDelayElapsed => OfflineState { will_pending: false, ..self },
            _ => self,
        }
    }

    /// Creates the state of a session that has just gone offline.
    pub fn new(flags: StateFlags, will: WillPlan) -> (state: OfflineState)
        ensures
            state == OfflineState::begun(flags, will),
    {
        let will_pending: bool = match will {
            WillPlan::Delay(_) => true,
            _ => false,
        };
        OfflineState { flags, will_pending }
    }

    /// Returns what is done about an event.
    pub fn on_event(&mut self, event: OfflineEvent) -> (action: OfflineAction)
        ensures
            action == old(self).action(event),
            *final(self) == old(self).after(event),
    {
        match event {
            OfflineEvent::Mailbox(None) => OfflineAction::End { publish_will: false },
            OfflineEvent::Mailbox(Some(Message::Forward(from, publish))) => OfflineAction::Enqueue(
                from,
                publish,
            ),
            OfflineEvent::Mailbox(Some(Message::Kick { awaited, clean_start, is_admin })) => {
                if awaited {
                    self.flags.kick(clean_start, is_admin);
                    OfflineAction::AnswerAndEnd
                } else {
                    OfflineAction::Wait
                }
            },
            OfflineEvent::Mailbox(Some(_)) => OfflineAction::Wait,
            OfflineEvent::SessionExpired => OfflineAction::End { publish_will: self.will_pending },
            OfflineEvent::WillDelayElapsed => {
                let publish_will: bool = self.will_pending;
                self.will_pending = false;
                OfflineAction::RestartWillDelay { publish_will }
            },
        }
    }

    /// Returns whether the session is cleaned once its time offline is over: not where
    /// another connection has it, or an administrator cleaned it.
    pub fn is_cleaned(&self) -> (cleaned: bool)
        ensures
            cleaned == !self.flags.kicked,
    {
        !self.flags.kicked
    }
}

/// A data flow that ends with transactions on it takes the whole connection with it; one
/// without transactions takes its bindings only.
pub proof fn lost_transactions_end_the_connection(
    state: SessionView,
    flow_id: FlowId,
    reason: crate::link::FlowCloseReason,
    topic: Seq<char>,
)
    requires
        state.bindings.dom().finite(),
    ensures
        ({
            let event = LoopEvent::Link(
                Ok(Some(SessionLinkEvent::FlowClosed { flow_id, reason })),
            );
            let after = after_loop_event(state, event);
            &&& crate::route::flow_in_use(state.routes, flow_id) <==> loop_action(
                state,
                event,
            ) is CloseAndEnd
            &&& !crate::route::flow_in_use(state.routes, flow_id) ==> {
                &&& loop_action(state, event) == LoopAction::Wait
                &&& after.routes == state.routes
                &&& crate::subscription_binding::bound_path(
                    after.bindings,
                    topic,
                ) matches Some(path) ==> path.flow_id != flow_id
            }
        }),
{
    crate::subscription_binding::removed_flows_lead_no_message(state.bindings, flow_id, topic);
}

/// A client that takes leave with DISCONNECT has no will message published; neither has one
/// whose session another connection goes on with.
pub proof fn wills_are_kept_from_orderly_ends(
    flags: StateFlags,
    clean_session: bool,
    will_delay_interval: Option<Duration>,
)
    ensures
        flags.disconnect_received ==> will_plan(flags, clean_session, will_delay_interval)
            == WillPlan::Discard,
        flags.kicked && !flags.clean_start && !clean_session ==> will_plan(
            flags,
            clean_session,
            will_delay_interval,
        ) == WillPlan::Discard,
        !flags.disconnect_received && !flags.kicked ==> will_plan(
            flags,
            clean_session,
            will_delay_interval,
        ) != WillPlan::Discard,
{
}

/// A session without a connection publishes its will message at most once: an event that
/// publishes it leaves none pending, or is the last one.
pub proof fn wills_are_published_at_most_once(state: OfflineState, event: OfflineEvent)
    ensures
        state.action(event) == (OfflineAction::RestartWillDelay { publish_will: true })
            ==> !state.after(event).will_pending,
        !state.will_pending ==> !state.after(event).will_pending,
        !state.will_pending ==> state.action(event) != (OfflineAction::RestartWillDelay {
            publish_will: true,
        }) && state.action(event) != (OfflineAction::End { publish_will: true }),
{
}

/// The will of a session that nobody kicked is delayed only where the session goes offline, and
/// so has somebody to publish it.
pub proof fn delayed_wills_belong_to_offline_sessions(
    flags: StateFlags,
    clean_session: bool,
    will_delay_interval: Option<Duration>,
)
    requires
        !flags.kicked,
    ensures
        will_plan(flags, clean_session, will_delay_interval) is Delay ==> ending_of(
            flags,
            clean_session,
        ) == Ending::GoOffline,
{
}

/// What the link, the queue and the mailbox give to a connected session is handled as it came:
/// a packet on the path on which it came, a message as it was queued. What ends the session
/// ends it with its own reason, and only the end of a flow can touch the session at all.
pub proof fn events_are_handled_as_they_come(
    state: SessionView,
    packet: Packet,
    reply_path: ReplyPath,
    from: MessageSource,
    publish: Publish,
    message: Message,
    error: LinkError,
    close: ConnectionCloseReason,
)
    ensures
        ({
            let came = LoopEvent::Link(
                Ok(Some(SessionLinkEvent::Packet { packet, reply_path })),
            );
            let closed = LoopEvent::Link(
                Ok(Some(SessionLinkEvent::ConnectionClosed { reason: close })),
            );
            &&& loop_action(state, came) == LoopAction::Handle { packet, reply_path }
            &&& after_loop_event(state, came) == state
            &&& loop_action(state, closed) == LoopAction::End(Reason::ConnectRemoteClose)
            &&& after_loop_event(state, closed) == state
        }),
        loop_action(state, LoopEvent::Queue(Some(Some((from, publish))))) == LoopAction::Deliver(
            from,
            publish,
        ),
        loop_action(state, LoopEvent::Queue(Some(None))) == LoopAction::Wait,
        loop_action(state, LoopEvent::Queue(None)) == LoopAction::End(Reason::MessageQueueClosed),
        loop_action(state, LoopEvent::Mailbox(Some(message))) == LoopAction::Process(message),
        loop_action(state, LoopEvent::Mailbox(None)) == LoopAction::End(Reason::MailboxClosed),
        loop_action(state, LoopEvent::Link(Err(error))) == LoopAction::End(Reason::Link(error)),
        loop_action(state, LoopEvent::Link(Ok(None))) == LoopAction::End(
            Reason::ConnectRemoteClose,
        ),
        loop_action(state, LoopEvent::KeepAliveExpired) == LoopAction::End(
            Reason::ConnectKeepaliveTimeout,
        ),
        loop_action(state, LoopEvent::RetransmissionDue) == LoopAction::Retransmit,
        after_loop_event(state, LoopEvent::Queue(Some(Some((from, publish))))) == state,
        after_loop_event(state, LoopEvent::Mailbox(Some(message))) == state,
        after_loop_event(state, LoopEvent::RetransmissionDue) == state,
        after_loop_event(state, LoopEvent::KeepAliveExpired) == state,
{
}

/// The end of a data flow costs the connection exactly where some transaction runs on that
/// flow, in whatever generation; else it costs the bindings to that flow and no others.
pub proof fn flows_end_with_their_transactions(
    state: SessionView,
    flow_id: FlowId,
    flow_reason: crate::link::FlowCloseReason,
    filter: Seq<char>,
)
    ensures
        ({
            let event = LoopEvent::Link(
                Ok(Some(SessionLinkEvent::FlowClosed { flow_id, reason: flow_reason })),
            );
            let after = after_loop_event(state, event);
            let in_use = exists|key: crate::route::PacketRouteKey|
                state.routes.contains_key(key) && (#[trigger] state.routes[key]).path.flow_id
                    == flow_id;
            &&& in_use ==> loop_action(state, event) == (LoopAction::CloseAndEnd {
                close: ConnectionCloseReason::StatefulFlowFailure,
                reason: Reason::ProtocolError(ProtocolError::TransactionLost(flow_id)),
            }) && after == state
            &&& !in_use ==> loop_action(state, event) == LoopAction::Wait && after.routes
                == state.routes && after.flags == state.flags
            &&& !in_use ==> after.bindings.contains_key(filter) == (state.bindings.contains_key(
                filter,
            ) && state.bindings[filter].path.flow_id != flow_id)
            &&& !in_use && after.bindings.contains_key(filter) ==> after.bindings[filter]
                == state.bindings[filter]
        }),
{
    let in_use = exists|key: crate::route::PacketRouteKey|
        state.routes.contains_key(key) && (#[trigger] state.routes[key]).path.flow_id == flow_id;
    if crate::route::flow_in_use(state.routes, flow_id) {
        assert(in_use);
    }
    if in_use {
        let key = choose|key: crate::route::PacketRouteKey|
            state.routes.contains_key(key) && (#[trigger] state.routes[key]).path.flow_id
                == flow_id;
        assert(state.routes.contains_key(key));
        assert(crate::route::flow_in_use(state.routes, flow_id));
    }
}

/// What others ask of a connected session is done as they ask it. A kick ends the session for
/// whoever still waits for it, with the flags that the kick carries, and is ignored where
/// nobody does; nothing else in the mailbox touches the flags.
pub proof fn mailbox_messages_are_obeyed(
    flags: StateFlags,
    from: MessageSource,
    publish: Publish,
    sub: Subscribe,
    subs: Vec<Subscribe>,
    unsub: Unsubscribe,
    info: OfflineInfo,
    reason: Reason,
    clean_start: bool,
    is_admin: bool,
)
    ensures
        message_action(Message::Forward(from, publish)) == MessageAction::Enqueue(from, publish),
        message_action(Message::Subscribe(sub)) == MessageAction::Subscribe(sub),
        message_action(Message::Subscribes(subs)) == MessageAction::Subscribes(subs),
        message_action(Message::Unsubscribe(unsub)) == MessageAction::Unsubscribe(unsub),
        message_action(Message::SessionStateTransfer(info, clean_start))
            == MessageAction::Transfer(info, clean_start),
        message_action(Message::Closed(reason)) == MessageAction::End(reason),
        message_action(Message::Kick { awaited: true, clean_start, is_admin })
            == MessageAction::AnswerAndEnd(Reason::ConnectKicked(is_admin)),
        message_action(Message::Kick { awaited: false, clean_start, is_admin })
            == MessageAction::Wait,
        flags_after_message(flags, Message::Kick { awaited: true, clean_start, is_admin }) == (
        StateFlags {
            ping: flags.ping,
            kicked: true,
            by_admin_kick: flags.by_admin_kick || is_admin,
            clean_start: flags.clean_start || clean_start,
            disconnect_received: flags.disconnect_received,
        }),
        flags_after_message(flags, Message::Kick { awaited: false, clean_start, is_admin })
            == flags,
        flags_after_message(flags, Message::Forward(from, publish)) == flags,
        flags_after_message(flags, Message::Subscribe(sub)) == flags,
        flags_after_message(flags, Message::Subscribes(subs)) == flags,
        flags_after_message(flags, Message::Unsubscribe(unsub)) == flags,
        flags_after_message(flags, Message::SessionStateTransfer(info, clean_start)) == flags,
        flags_after_message(flags, Message::Closed(reason)) == flags,
{
}

/// An MQTT 3 session ends with its connection exactly where its CONNECT said so, an MQTT 5
/// session exactly where it is kept for no time.
pub proof fn sessions_live_as_agreed(clean_session: bool, interval: Duration)
    ensures
        ends_with_connection(Some(ConnectKind::V3 { clean_session }), interval) == clean_session,
        ends_with_connection(Some(ConnectKind::V5), interval) <==> interval.nanos == 0,
        ends_with_connection(None, interval),
{
}

/// A will message is published unless the client took leave or another connection goes on with
/// the session: at once where no delay was asked for or the session is over, else after the
/// delay that was asked for.
pub proof fn wills_are_published_when_due(
    flags: StateFlags,
    clean_session: bool,
    delay: Duration,
)
    ensures
        ({
            let goes_on = flags.kicked && !flags.clean_start && !clean_session;
            let due = !flags.disconnect_received && !goes_on;
            &&& will_is_due(flags, clean_session) == due
            &&& due ==> will_plan(flags, clean_session, None) == WillPlan::Publish
            &&& due && clean_session ==> will_plan(flags, clean_session, Some(delay))
                == WillPlan::Publish
            &&& due && !clean_session ==> will_plan(flags, clean_session, Some(delay))
                == WillPlan::Delay(delay)
            &&& !due ==> will_plan(flags, clean_session, None) == WillPlan::Discard && will_plan(
                flags,
                clean_session,
                Some(delay),
            ) == WillPlan::Discard
        }),
{
}

/// A session whose connection has ended stays with whoever took it over, is cleaned by an
/// administrator or because it lives no longer than its connection, and else goes on offline.
pub proof fn sessions_end_as_they_were_ended(flags: StateFlags, clean_session: bool)
    ensures
        ending_of(flags, clean_session) == Ending::TakenOver <==> flags.kicked
            && !flags.by_admin_kick,
        ending_of(flags, clean_session) == Ending::GoOffline <==> !flags.kicked && !clean_session,
        ending_of(flags, clean_session) == Ending::Clean <==> (flags.kicked && flags.by_admin_kick)
            || (!flags.kicked && clean_session),
{
}

/// A session without a connection keeps the messages that come for it, gives itself up to
/// whoever waits for it, and ends when its lifetime is over. Its will message is published
/// exactly where one is pending when its delay or the session's lifetime is over, and not
/// where the session is taken over.
pub proof fn offline_sessions_wait_for_their_client(
    state: OfflineState,
    from: MessageSource,
    publish: Publish,
    other: Message,
    clean_start: bool,
    is_admin: bool,
)
    ensures
        ({
            let message = OfflineEvent::Mailbox(Some(Message::Forward(from, publish)));
            let kick = OfflineEvent::Mailbox(
                Some(Message::Kick { awaited: true, clean_start, is_admin }),
            );
            let late = OfflineEvent::Mailbox(
                Some(Message::Kick { awaited: false, clean_start, is_admin }),
            );
            &&& state.action(message) == OfflineAction::Enqueue(from, publish)
            &&& state.after(message) == state
            &&& state.action(kick) == OfflineAction::AnswerAndEnd
            &&& state.after(kick).will_pending == state.will_pending
            &&& state.after(kick).flags.kicked
            &&& state.after(kick).flags.by_admin_kick == (state.flags.by_admin_kick || is_admin)
            &&& state.after(kick).flags.clean_start == (state.flags.clean_start || clean_start)
            &&& state.action(late) == OfflineAction::Wait
            &&& state.after(late) == state
            &&& state.action(OfflineEvent::Mailbox(None)) == (OfflineAction::End {
                publish_will: false,
            })
            &&& state.action(OfflineEvent::SessionExpired) == (OfflineAction::End {
                publish_will: state.will_pending,
            })
            &&& state.action(OfflineEvent::WillDelayElapsed) == (
            OfflineAction::RestartWillDelay { publish_will: state.will_pending })
            &&& state.after(OfflineEvent::WillDelayElapsed).flags == state.flags
            &&& !state.after(OfflineEvent::WillDelayElapsed).will_pending
            &&& state.after(OfflineEvent::Mailbox(None)) == state
            &&& state.after(OfflineEvent::SessionExpired) == state
        }),
        !(other is Forward) && !(other is Kick) ==> state.action(OfflineEvent::Mailbox(Some(other)))
            == OfflineAction::Wait && state.after(OfflineEvent::Mailbox(Some(other))) == state,
        forall|flags: StateFlags, delay: Duration|
            #![trigger OfflineState::begun(flags, WillPlan::Delay(delay))]
            OfflineState::begun(flags, WillPlan::Delay(delay)) == (OfflineState {
                flags,
                will_pending: true,
            }),
        forall|flags: StateFlags|
            #![trigger OfflineState::begun(flags, WillPlan::Publish)]
            OfflineState::begun(flags, WillPlan::Publish) == (OfflineState {
                flags,
                will_pending: false,
            }),
        forall|flags: StateFlags|
            #![trigger OfflineState::begun(flags, WillPlan::Discard)]
            OfflineState::begun(flags, WillPlan::Discard) == (OfflineState {
                flags,
                will_pending: false,
            }),
{
}

} // verus!
