//! What a listener lets in: protocol variants, and admission of QUIC connections.

use vstd::prelude::*;

use crate::addr::{IpAddr, SocketAddr};
use crate::assoc::{Table, TableKey};
use crate::text::same_text;
use crate::time::Instant;

verus! {

/// Protocol variants for network listeners.
#[derive(Clone, Copy, Debug, PartialEq, Eq, Structural)]
pub enum ListenerType {
    /// Plain TCP listener.
    TCP,
    /// TLS-secured TCP listener.
    TLS,
    /// WebSocket listener.
    WS,
    /// TLS-secured WebSocket listener.
    WSS,
    /// QUIC listener (UDP-based, multiplexed and secured by default).
    QUIC,
}

/// Why a listener cannot serve, or an accepted connection cannot be handled as, a variant.
#[derive(Clone, Copy, Debug, PartialEq, Eq, Structural)]
pub enum ListenerError {
    /// A listener of another variant cannot become a TCP listener.
    DowngradeToTcp,
    /// A secured listener cannot become a WebSocket listener.
    UpgradeToWs,
    /// A QUIC listener cannot become a secure WebSocket listener.
    QuicToWss,
    /// A WebSocket listener cannot become a TLS listener.
    DowngradeToTls,
    /// A QUIC listener cannot become a TLS listener.
    QuicToTls,
    /// The connection was accepted by a listener of another variant than the given one.
    Expected(ListenerType),
}

/// Step by which a listener becomes another variant.
#[derive(Clone, Copy, Debug, PartialEq, Eq, Structural)]
pub struct Transition {
    /// The variant.
    pub typ: ListenerType,
    /// Whether a TLS configuration has to be built for it.
    pub builds_tls: bool,
}

impl ListenerType {
    /// Makes the listener a plain TCP listener.
    pub fn tcp(self) -> (typ: Result<ListenerType, ListenerError>)
        ensures
            typ == (if self == ListenerType::TCP {
                Ok::<ListenerType, ListenerError>(ListenerType::TCP)
            } else {
                Err::<ListenerType, ListenerError>(ListenerError::DowngradeToTcp)
            }),
    {
        match self {
            ListenerType::TCP => Ok(ListenerType::TCP),
            _ => Err(ListenerError::DowngradeToTcp),
        }
    }

    /// Makes the listener a WebSocket listener.
    pub fn ws(self) -> (typ: Result<ListenerType, ListenerError>)
        ensures
            typ == (if self == ListenerType::TCP || self == ListenerType::WS {
                Ok::<ListenerType, ListenerError>(ListenerType::WS)
            } else {
                Err::<ListenerType, ListenerError>(ListenerError::UpgradeToWs)
            }),
    {
        match self {
            ListenerType::TCP | ListenerType::WS => Ok(ListenerType::WS),
            _ => Err(ListenerError::UpgradeToWs),
        }
    }

    /// The step to a TLS listener.
    pub open spec fn to_tls(self) -> Result<Transition, ListenerError> {
        match self {
            ListenerType::TCP => Ok(Transition { typ: ListenerType::TLS, builds_tls: true }),
            ListenerType::TLS => Ok(Transition { typ: ListenerType::TLS, builds_tls: false }),
            ListenerType::WS => Err(ListenerError::DowngradeToTls),
            ListenerType::WSS => Err(ListenerError::DowngradeToTls),
            ListenerType::QUIC => Err(ListenerError::QuicToTls),
        }
    }

    /// The step to a secure WebSocket listener, which is first made a TLS listener where it is
    /// not secured.
    pub open spec fn to_wss(self) -> Result<Transition, ListenerError> {
        match self {
            ListenerType::TCP => Ok(Transition { typ: ListenerType::WSS, builds_tls: true }),
            ListenerType::WS => Err(ListenerError::DowngradeToTls),
            ListenerType::TLS => Ok(Transition { typ: ListenerType::WSS, builds_tls: false }),
            ListenerType::WSS => Ok(Transition { typ: ListenerType::WSS, builds_tls: false }),
            ListenerType::QUIC => Err(ListenerError::QuicToWss),
        }
    }

    /// Makes the listener a TLS listener.
    pub fn tls(self) -> (transition: Result<Transition, ListenerError>)
        ensures
            transition == self.to_tls(),
    {
        match self {
            ListenerType::WS | ListenerType::WSS => Err(ListenerError::DowngradeToTls),
            ListenerType::QUIC => Err(ListenerError::QuicToTls),
            ListenerType::TLS => Ok(Transition { typ: ListenerType::TLS, builds_tls: false }),
            ListenerType::TCP => Ok(Transition { typ: ListenerType::TLS, builds_tls: true }),
        }
    }

    /// Makes the listener a secure WebSocket listener.
    pub fn wss(self) -> (transition: Result<Transition, ListenerError>)
        ensures
            transition == self.to_wss(),
    {
        let mut builds_tls = false;
        match self {
            ListenerType::QUIC => {
                return Err(ListenerError::QuicToWss);
            },
            ListenerType::TCP | ListenerType::WS => {
                match self.tls() {
                    Ok(transition) => {
                        builds_tls = transition.builds_tls;
                    },
                    Err(error) => {
                        return Err(error);
                    },
                }
            },
            _ => {},
        }
        Ok(Transition { typ: ListenerType::WSS, builds_tls })
    }

    /// Checks that a connection was accepted by a listener of the variant `wanted`.
    pub fn expect(self, wanted: ListenerType) -> (checked: Result<(), ListenerError>)
        ensures
            checked == (if self == wanted {
                Ok::<(), ListenerError>(())
            } else {
                Err::<(), ListenerError>(ListenerError::Expected(wanted))
            }),
    {
        if self == wanted {
            Ok(())
        } else {
            Err(ListenerError::Expected(wanted))
        }
    }
}

/// Returns whether the certificate of a client is looked at.
pub fn extracts_cert_info(
    cert_cn_as_username: bool,
    cert_subject_dn_as_username: bool,
    collect_cert_info: bool,
) -> (extracts: bool)
    ensures
        extracts == (cert_cn_as_username || cert_subject_dn_as_username || collect_cert_info),
{
    cert_cn_as_username || cert_subject_dn_as_username || collect_cert_info
}

/// The WebSocket subprotocol that answers the one a client asks for.
pub open spec fn subprotocol(requested: Option<Seq<char>>) -> Option<Seq<char>> {
    match requested {
        Some(requested) => if requested == "mqtt"@ || requested == "mqttv3.1"@ {
            Some(requested)
        } else {
            None
        },
        None => None,
    }
}

/// Validates a WebSocket handshake: the client has to ask for MQTT. `requested` is the text of
/// its protocol header, if it has one that is text.
pub fn on_handshake(requested: Option<&str>) -> (answer: Option<&'static str>)
    ensures
        match (requested, answer) {
            (Some(requested), Some(answer)) => subprotocol(Some(requested@)) == Some(answer@),
            (Some(requested), None) => subprotocol(Some(requested@)) is None,
            (None, Some(_)) => false,
            (None, None) => true,
        },
{
    match requested {
        Some(requested) => if same_text(requested, "mqtt") {
            Some("mqtt")
        } else if same_text(requested, "mqttv3.1") {
            Some("mqttv3.1")
        } else {
            None
        },
        None => None,
    }
}

/// The nanoseconds over which handshakes of one prefix are counted.
pub const QUIC_PREFIX_WINDOW_NANOS: u128 = 1_000_000_000;

/// The prefix that an address is counted under: the first 24 bits of an IPv4 address, the first
/// 56 bits of an IPv6 address.
pub open spec fn prefix_of(ip: IpAddr) -> IpAddr {
    match ip {
        IpAddr::V4(ip) => IpAddr::V4(ip & 0xffff_ff00),
        IpAddr::V6(ip) => IpAddr::V6(ip & 0xffff_ffff_ffff_ff00_0000_0000_0000_0000),
    }
}

/// Returns the prefix that an address is counted under.
pub fn quic_remote_prefix(ip: IpAddr) -> (prefix: IpAddr)
    ensures
        prefix == prefix_of(ip),
{
    match ip {
        IpAddr::V4(ip) => IpAddr::V4(ip & 0xffff_ff00),
        IpAddr::V6(ip) => IpAddr::V6(ip & 0xffff_ffff_ffff_ff00_0000_0000_0000_0000),
    }
}

impl TableKey for IpAddr {
    type Text = IpAddr;

    open spec fn text(&self) -> IpAddr {
        *self
    }

    fn same(&self, other: &Self) -> (same: bool) {
        *self == *other
    }
}

/// Handshakes that were counted, by prefix: since when, and how many.
pub type PrefixCounts = Map<IpAddr, (Instant, usize)>;

/// The counts that are not over at `now`.
pub open spec fn counting(entries: PrefixCounts, now: Instant) -> PrefixCounts {
    Map::new(
        |prefix: IpAddr|
            entries.contains_key(prefix) && now.since(entries[prefix].0)
                < QUIC_PREFIX_WINDOW_NANOS,
        |prefix: IpAddr| entries[prefix],
    )
}

/// Bound on the handshakes that connections of one prefix may begin in one second.
#[derive(Debug)]
pub struct QuicPrefixLimiter {
    entries: Table<IpAddr, (Instant, usize)>,
    max_entries: usize,
    per_prefix_limit: usize,
}

impl View for QuicPrefixLimiter {
    type V = PrefixCounts;

    closed spec fn view(&self) -> PrefixCounts {
        self.entries@
    }
}

/// Whether a handshake of the prefix may begin, of those that are counted.
pub open spec fn allows(
    entries: PrefixCounts,
    prefix: IpAddr,
    max_entries: nat,
    per_prefix_limit: nat,
) -> bool {
    if entries.contains_key(prefix) {
        entries[prefix].1 < per_prefix_limit
    } else {
        entries.dom().len() < max_entries
    }
}

/// The counts once a handshake of the prefix has begun.
pub open spec fn counted(entries: PrefixCounts, prefix: IpAddr, now: Instant) -> PrefixCounts {
    if entries.contains_key(prefix) {
        entries.insert(prefix, (entries[prefix].0, (entries[prefix].1 + 1) as usize))
    } else {
        entries.insert(prefix, (now, 1))
    }
}

impl QuicPrefixLimiter {
    /// Whether no prefix is counted twice and each may begin a handshake.
    pub closed spec fn wf(&self) -> bool {
        self.entries.wf() && self.per_prefix_limit >= 1
    }

    /// Most prefixes that are counted at a time.
    pub closed spec fn max_entries(&self) -> nat {
        self.max_entries as nat
    }

    /// Most handshakes that connections of one prefix may begin.
    pub closed spec fn per_prefix_limit(&self) -> nat {
        self.per_prefix_limit as nat
    }

    /// Creates a limiter for a listener with so many handshakes at a time.
    pub fn new(max_handshakes: usize) -> (limiter: QuicPrefixLimiter)
        ensures
            limiter.wf(),
            limiter@ == PrefixCounts::empty(),
            limiter.max_entries() == (if 4 * max_handshakes > usize::MAX {
                usize::MAX as int
            } else if 4 * max_handshakes < 16 {
                16
            } else {
                4 * max_handshakes
            }),
            limiter.per_prefix_limit() == (if max_handshakes < 4 {
                1
            } else {
                max_handshakes as int / 4
            }),
    {
        let twice: usize = max_handshakes.saturating_add(max_handshakes);
        let mut max_entries: usize = twice.saturating_add(twice);
        if max_entries < 16 {
            max_entries = 16;
        }
        let mut per_prefix_limit: usize = max_handshakes / 4;
        if per_prefix_limit < 1 {
            per_prefix_limit = 1;
        }
        QuicPrefixLimiter { entries: Table::new(), max_entries, per_prefix_limit }
    }

    fn forget_old_counts(&mut self, now: Instant)
        requires
            old(self).wf(),
        ensures
            final(self).wf(),
            final(self)@ == counting(old(self)@, now),
            final(self).max_entries == old(self).max_entries,
            final(self).per_prefix_limit == old(self).per_prefix_limit,
    {
        let mut i: usize = 0;
        while i < self.entries.len()
            invariant
                self.wf(),
                self.max_entries == old(self).max_entries,
                self.per_prefix_limit == old(self).per_prefix_limit,
                i <= self.entries.listed().len(),
                counting(self@, now) == counting(old(self)@, now),
                forall|j: int|
                    0 <= j < i ==> now.since((#[trigger] self.entries.listed()[j]).1.0)
                        < QUIC_PREFIX_WINDOW_NANOS,
            decreases self.entries.listed().len() - i,
        {
            let started = self.entries.entry(i).1.0;
            if now.duration_since(started).nanos >= QUIC_PREFIX_WINDOW_NANOS {
                let ghost before = self@;
                let _ = self.entries.remove_at(i);
                assert(counting(self@, now) =~= counting(before, now));
            } else {
                i = i + 1;
            }
        }
        proof {
            self.entries.lemma_listed();
            assert(self@ =~= counting(self@, now));
        }
    }

    /// Counts a handshake of the prefix of an address at `now`, and returns whether it may go
    /// on.
    pub fn allow(&mut self, remote_addr: SocketAddr, now: Instant) -> (allowed: bool)
        requires
            old(self).wf(),
        ensures
            final(self).wf(),
            final(self).max_entries() == old(self).max_entries(),
            final(self).per_prefix_limit() == old(self).per_prefix_limit(),
            ({
                let entries = counting(old(self)@, now);
                let prefix = prefix_of(remote_addr.ip);
                &&& allowed == allows(
                    entries,
                    prefix,
                    old(self).max_entries(),
                    old(self).per_prefix_limit(),
                )
                &&& final(self)@ == (if allowed {
                    counted(entries, prefix, now)
                } else {
                    entries
                })
            }),
    {
        let prefix = quic_remote_prefix(remote_addr.ip);
        self.forget_old_counts(now);
        let (started, count): (Instant, usize) = match self.entries.get(&prefix) {
            Some(entry) => (entry.0, entry.1),
            None => {
                if self.entries.len() >= self.max_entries {
                    return false;
                }
                (now, 0)
            },
        };
        if count >= self.per_prefix_limit {
            return false;
        }
        self.entries.insert(prefix, (started, count + 1));
        true
    }
}

/// No prefix begins more handshakes in one second than the limit, and no more prefixes are
/// counted than there is room for.
pub proof fn prefixes_are_bounded(
    entries: PrefixCounts,
    prefix: IpAddr,
    now: Instant,
    max_entries: nat,
    per_prefix_limit: nat,
)
    requires
        entries.dom().finite(),
        entries.dom().len() <= max_entries,
        per_prefix_limit >= 1,
        forall|p: IpAddr| #[trigger]
            entries.contains_key(p) ==> entries[p].1 <= per_prefix_limit,
        allows(counting(entries, now), prefix, max_entries, per_prefix_limit),
    ensures
        ({
            let after = counted(counting(entries, now), prefix, now);
            &&& after.dom().finite()
            &&& after.dom().len() <= max_entries
            &&& forall|p: IpAddr| #[trigger]
                after.contains_key(p) ==> after[p].1 <= per_prefix_limit && now.since(
                    after[p].0,
                ) < QUIC_PREFIX_WINDOW_NANOS
        }),
{
    let kept = counting(entries, now);
    assert(kept.dom().subset_of(entries.dom()));
    vstd::set_lib::lemma_len_subset(kept.dom(), entries.dom());
    let after = counted(kept, prefix, now);
    if kept.contains_key(prefix) {
        assert(after.dom() =~= kept.dom());
    } else {
        assert(after.dom() =~= kept.dom().insert(prefix));
    }
    assert forall|p: IpAddr| #[trigger] after.contains_key(p) implies after[p].1
        <= per_prefix_limit && now.since(after[p].0) < QUIC_PREFIX_WINDOW_NANOS by {
        if kept.contains_key(p) {
            assert(entries.contains_key(p));
        }
    }
}

/// Addresses that differ in their host bits only are counted together.
pub proof fn neighbours_share_a_prefix(v4: u32, host4: u8, v6: u128, host6: u128)
    requires
        host6 < 0x100_0000_0000_0000_0000,
    ensures
        prefix_of(IpAddr::V4(v4 & 0xffff_ff00 | host4 as u32)) == prefix_of(IpAddr::V4(v4)),
        prefix_of(
            IpAddr::V6(v6 & 0xffff_ffff_ffff_ff00_0000_0000_0000_0000 | host6),
        ) == prefix_of(IpAddr::V6(v6)),
{
    assert((v4 & 0xffff_ff00 | host4 as u32) & 0xffff_ff00 == v4 & 0xffff_ff00) by (bit_vector);
    assert((v6 & 0xffff_ffff_ffff_ff00_0000_0000_0000_0000 | host6)
        & 0xffff_ffff_ffff_ff00_0000_0000_0000_0000 == v6
        & 0xffff_ffff_ffff_ff00_0000_0000_0000_0000) by (bit_vector)
        requires
            host6 < 0x100_0000_0000_0000_0000,
    ;
}

/// Limit that a connection has run into.
#[derive(Clone, Copy, Debug, PartialEq, Eq, Structural)]
pub enum AdmissionLimit {
    /// Too many handshakes of one prefix.
    PrefixRate,
    /// Too many handshakes at a time.
    Handshakes,
}

impl AdmissionLimit {
    /// The text of the limit.
    pub open spec fn text(self) -> Seq<char> {
        match self {
            AdmissionLimit::PrefixRate => "per-prefix handshake rate limit"@,
            AdmissionLimit::Handshakes => "handshake admission limit"@,
        }
    }

    /// Returns the text of the limit.
    pub fn message(self) -> (message: &'static str)
        ensures
            message@ == self.text(),
    {
        match self {
            AdmissionLimit::PrefixRate => "per-prefix handshake rate limit",
            AdmissionLimit::Handshakes => "handshake admission limit",
        }
    }
}

/// What is done with a connection that asks to be let in.
#[derive(Clone, Copy, Debug, PartialEq, Eq, Structural)]
pub enum QuicAdmission {
    /// Its handshake goes on.
    Admit,
    /// Its peer has to show that it owns its address.
    Retry(AdmissionLimit),
    /// It is refused.
    Refuse(AdmissionLimit),
}

/// What is done with a connection that has run into a limit.
pub open spec fn turned_away(limit: AdmissionLimit, may_retry: bool) -> QuicAdmission {
    if may_retry {
        QuicAdmission::Retry(limit)
    } else {
        QuicAdmission::Refuse(limit)
    }
}

/// Returns what is done with a connection that has run into a limit.
pub fn reject_or_retry_quic(limit: AdmissionLimit, may_retry: bool) -> (admission: QuicAdmission)
    ensures
        admission == turned_away(limit, may_retry),
{
    if may_retry {
        QuicAdmission::Retry(limit)
    } else {
        QuicAdmission::Refuse(limit)
    }
}

/// Decides on a connection to a listener with early data: first its prefix is counted, and
/// only then a handshake permit is asked for, of which `permits` are left.
pub fn admit_early(
    limiter: &mut QuicPrefixLimiter,
    remote_addr: SocketAddr,
    now: Instant,
    permits: usize,
    may_retry: bool,
) -> (admission: QuicAdmission)
    requires
        old(limiter).wf(),
    ensures
        final(limiter).wf(),
        final(limiter).max_entries() == old(limiter).max_entries(),
        final(limiter).per_prefix_limit() == old(limiter).per_prefix_limit(),
        ({
            let entries = counting(old(limiter)@, now);
            let prefix = prefix_of(remote_addr.ip);
            if allows(
                entries,
                prefix,
                old(limiter).max_entries(),
                old(limiter).per_prefix_limit(),
            ) {
                &&& final(limiter)@ == counted(entries, prefix, now)
                &&& admission == (if permits > 0 {
                    QuicAdmission::Admit
                } else {
                    turned_away(AdmissionLimit::Handshakes, may_retry)
                })
            } else {
                &&& final(limiter)@ == entries
                &&& admission == turned_away(AdmissionLimit::PrefixRate, may_retry)
            }
        }),
{
    if !limiter.allow(remote_addr, now) {
        return reject_or_retry_quic(AdmissionLimit::PrefixRate, may_retry);
    }
    if permits == 0 {
        return reject_or_retry_quic(AdmissionLimit::Handshakes, may_retry);
    }
    QuicAdmission::Admit
}

/// Why a listener has no connection to hand out.
#[derive(Debug, PartialEq, Eq)]
pub enum AcceptError {
    /// The connection has been turned away.
    AdmissionRejected(AdmissionLimit),
    /// The connection should have been asked to try again, which failed.
    RetryFailed(AdmissionLimit),
    /// The listener has no QUIC endpoint.
    NoEndpoint,
    /// The endpoint has been closed.
    NoIncoming,
    /// Handshakes are no longer let in.
    AdmissionClosed,
    /// The transport reported a failure in its own words.
    Transport(String),
}

/// The outcome of turning a connection away.
pub open spec fn rejection(limit: AdmissionLimit, retry_failed: bool) -> AcceptError {
    if retry_failed {
        AcceptError::RetryFailed(limit)
    } else {
        AcceptError::AdmissionRejected(limit)
    }
}

/// Returns the error for a connection that has been turned away.
pub fn rejected(limit: AdmissionLimit, retry_failed: bool) -> (error: AcceptError)
    ensures
        error == rejection(limit, retry_failed),
{
    if retry_failed {
        AcceptError::RetryFailed(limit)
    } else {
        AcceptError::AdmissionRejected(limit)
    }
}

/// Returns whether an error represents a connection already handled by QUIC admission control.
///
/// Such errors are non-fatal for the listener loop: the peer has already received a Retry or
/// refusal, so accepting the next datagram must continue without listener-level backoff.
pub fn is_quic_admission_rejection(error: &AcceptError) -> (handled: bool)
    ensures
        handled == (*error is AdmissionRejected),
{
    match error {
        AcceptError::AdmissionRejected(_) => true,
        _ => false,
    }
}

/// A listener becomes a TLS listener from a TCP listener, for which a configuration is built,
/// and stays one; WebSocket and QUIC listeners do not become one.
pub proof fn tls_is_built_once()
    ensures
        ListenerType::TCP.to_tls() matches Ok(step) && step.typ == ListenerType::TLS
            && step.builds_tls,
        ListenerType::TLS.to_tls() matches Ok(step) && step.typ == ListenerType::TLS
            && !step.builds_tls,
        ListenerType::WS.to_tls() == Err::<Transition, ListenerError>(
            ListenerError::DowngradeToTls,
        ),
        ListenerType::WSS.to_tls() == Err::<Transition, ListenerError>(
            ListenerError::DowngradeToTls,
        ),
        ListenerType::QUIC.to_tls() == Err::<Transition, ListenerError>(ListenerError::QuicToTls),
        ListenerType::TCP.to_wss() matches Ok(step) && step.typ == ListenerType::WSS
            && step.builds_tls,
        ListenerType::TLS.to_wss() matches Ok(step) && step.typ == ListenerType::WSS
            && !step.builds_tls,
        ListenerType::WSS.to_wss() matches Ok(step) && step.typ == ListenerType::WSS
            && !step.builds_tls,
        ListenerType::WS.to_wss() == Err::<Transition, ListenerError>(
            ListenerError::DowngradeToTls,
        ),
        ListenerType::QUIC.to_wss() == Err::<Transition, ListenerError>(ListenerError::QuicToWss),
{
}

/// A WebSocket client that asks for MQTT is answered with what it asked for; every other is not
/// answered.
pub proof fn clients_that_ask_for_mqtt_are_answered(requested: Seq<char>)
    ensures
        subprotocol(Some("mqtt"@)) == Some("mqtt"@),
        subprotocol(Some("mqttv3.1"@)) == Some("mqttv3.1"@),
        requested != "mqtt"@ && requested != "mqttv3.1"@ ==> subprotocol(Some(requested)) is None,
        subprotocol(None) is None,
{
}

/// A handshake is counted under the prefix of its address alone: the first is counted from
/// `now` on, each further one adds one to its count and leaves its beginning, and no other
/// prefix is touched.
pub proof fn handshakes_are_counted_under_their_prefix(
    entries: PrefixCounts,
    prefix: IpAddr,
    other: IpAddr,
    now: Instant,
)
    requires
        entries.contains_key(prefix) ==> entries[prefix].1 < usize::MAX,
        other != prefix,
    ensures
        ({
            let after = counted(entries, prefix, now);
            &&& after.contains_key(prefix)
            &&& entries.contains_key(prefix) ==> after[prefix].0 == entries[prefix].0
                && after[prefix].1 == entries[prefix].1 + 1
            &&& !entries.contains_key(prefix) ==> after[prefix].0 == now && after[prefix].1 == 1
            &&& after.contains_key(other) == entries.contains_key(other)
            &&& entries.contains_key(other) ==> after[other] == entries[other]
        }),
{
}

/// Counts are kept for a second from their beginning, unchanged, and not longer.
pub proof fn counts_last_a_second(entries: PrefixCounts, prefix: IpAddr, now: Instant)
    ensures
        counting(entries, now).contains_key(prefix) <==> entries.contains_key(prefix)
            && now.since(entries[prefix].0) < 1_000_000_000,
        counting(entries, now).contains_key(prefix) ==> counting(entries, now)[prefix]
            == entries[prefix],
{
}

/// A prefix that is counted may begin handshakes up to its limit, whatever the others do; one
/// that is not may begin one while there is room for another prefix.
pub proof fn prefixes_are_limited_by_themselves(
    entries: PrefixCounts,
    prefix: IpAddr,
    max_entries: nat,
    per_prefix_limit: nat,
)
    ensures
        entries.contains_key(prefix) && entries[prefix].1 < per_prefix_limit ==> allows(
            entries,
            prefix,
            max_entries,
            per_prefix_limit,
        ),
        entries.contains_key(prefix) && entries[prefix].1 >= per_prefix_limit ==> !allows(
            entries,
            prefix,
            max_entries,
            per_prefix_limit,
        ),
        !entries.contains_key(prefix) && entries.dom().len() < max_entries ==> allows(
            entries,
            prefix,
            max_entries,
            per_prefix_limit,
        ),
        !entries.contains_key(prefix) && entries.dom().len() >= max_entries ==> !allows(
            entries,
            prefix,
            max_entries,
            per_prefix_limit,
        ),
{
}

/// A connection that has run into a limit is asked to try again where it can be, and refused
/// where it cannot; the limit stays the one that it ran into. Only where asking it failed is the
/// listener told of a failure.
pub proof fn limits_turn_connections_away(limit: AdmissionLimit)
    ensures
        turned_away(limit, true) == QuicAdmission::Retry(limit),
        turned_away(limit, false) == QuicAdmission::Refuse(limit),
        rejection(limit, true) == AcceptError::RetryFailed(limit),
        rejection(limit, false) == AcceptError::AdmissionRejected(limit),
        AdmissionLimit::PrefixRate.text() == "per-prefix handshake rate limit"@,
        AdmissionLimit::Handshakes.text() == "handshake admission limit"@,
{
}

/// Addresses are counted together exactly if they agree in their first 24 bits, or for IPv6 in
/// their first 56 bits.
pub proof fn prefixes_tell_networks_apart(a4: u32, b4: u32, a6: u128, b6: u128)
    ensures
        prefix_of(IpAddr::V4(a4)) == prefix_of(IpAddr::V4(b4)) <==> a4 >> 8 == b4 >> 8,
        prefix_of(IpAddr::V6(a6)) == prefix_of(IpAddr::V6(b6)) <==> a6 >> 72 == b6 >> 72,
        prefix_of(IpAddr::V4(a4)) != prefix_of(IpAddr::V6(a6)),
{
    assert(a4 & 0xffff_ff00 == b4 & 0xffff_ff00 <==> a4 >> 8 == b4 >> 8) by (bit_vector);
    assert(a6 & 0xffff_ffff_ffff_ff00_0000_0000_0000_0000 == b6
        & 0xffff_ffff_ffff_ff00_0000_0000_0000_0000 <==> a6 >> 72 == b6 >> 72) by (bit_vector);
}

} // verus!
