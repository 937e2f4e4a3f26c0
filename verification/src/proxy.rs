//! The proxy header with which a load balancer introduces a TCP connection.

use proxy_protocol::version1::ProxyAddresses as TextAddresses;
use proxy_protocol::version2::ProxyAddresses as BinaryAddresses;
use proxy_protocol::ProxyHeader::{Version1, Version2};
use vstd::prelude::*;

verus! {

/// Failure of the header parser.
#[verifier::external_type_specification]
#[verifier::external_body]
pub struct ExParseError(proxy_protocol::ParseError);

/// Command of a binary header by which the proxy speaks for itself.
pub const COMMAND_LOCAL: u8 = 0;

/// Transport of a binary header for byte streams.
pub const TRANSPORT_STREAM: u8 = 1;

/// The first bytes of a text header.
pub open spec fn text_signature() -> Seq<u8> {
    seq![0x50, 0x52, 0x4f, 0x58, 0x59, 0x20]
}

/// The first bytes of a binary header.
pub open spec fn binary_signature() -> Seq<u8> {
    seq![0x0d, 0x0a, 0x0d, 0x0a, 0x00, 0x0d, 0x0a, 0x51, 0x55, 0x49, 0x54, 0x0a]
}

/// Whether bytes begin with others.
pub open spec fn begins_with(bytes: Seq<u8>, first: Seq<u8>) -> bool {
    bytes.len() >= first.len() && bytes.take(first.len() as int) == first
}

/// A header, as far as the endpoints of the connection go.
#[derive(Debug)]
pub struct ProxyHeader {
    /// Command and transport of a binary header; a text header has neither.
    pub binary: Option<(u8, u8)>,
    /// Source and destination, where the header names socket addresses.
    pub endpoints: Option<(String, String)>,
    /// Number of bytes behind the header.
    pub rest: usize,
}

/// Texts of two endpoints.
pub open spec fn endpoint_texts(endpoints: Option<(String, String)>) -> Option<
    (Seq<char>, Seq<char>),
> {
    match endpoints {
        Some((source, destination)) => Some((source@, destination@)),
        None => None,
    }
}

impl View for ProxyHeader {
    type V = (Option<(u8, u8)>, Option<(Seq<char>, Seq<char>)>, nat);

    open spec fn view(&self) -> (Option<(u8, u8)>, Option<(Seq<char>, Seq<char>)>, nat) {
        (self.binary, endpoint_texts(self.endpoints), self.rest as nat)
    }
}

/// The header at the beginning of the bytes, where there is one: command and transport, the
/// texts of source and destination, and the number of bytes behind it.
pub uninterp spec fn header_of(bytes: Seq<u8>) -> Option<
    (Option<(u8, u8)>, Option<(Seq<char>, Seq<char>)>, nat),
>;

/// Whether a text header breaks off in the middle of its line end: it names endpoints, the
/// last port has more than one character, and only the line feed is missing.
pub open spec fn text_cut_off(bytes: Seq<u8>) -> bool {
    &&& begins_with(bytes, text_signature())
    &&& bytes.last() == 0x0d
    &&& bytes[bytes.len() - 3] != 0x20
    &&& header_of(bytes.push(0x0a)) matches Some((_, Some(_), rest)) && rest == 0
}

/// Number of bytes that the addresses of a family take in a binary header; none for a family
/// that has no addresses or is not known.
pub open spec fn addresses_len(family: u8) -> nat {
    if family == 1 {
        12
    } else if family == 2 {
        36
    } else if family == 3 {
        216
    } else {
        0
    }
}

/// Whether a binary header breaks off behind its addresses, before the length that it
/// announces.
pub open spec fn binary_cut_off(bytes: Seq<u8>) -> bool {
    &&& begins_with(bytes, binary_signature())
    &&& bytes.len() >= 16
    &&& bytes[12] / 16 == 2 && bytes[12] % 16 <= 1
    &&& addresses_len(bytes[13] / 16) > 0 && bytes[13] % 16 <= 2
    &&& 16 + addresses_len(bytes[13] / 16) <= bytes.len()
    &&& bytes.len() < 16 + 256 * bytes[14] + bytes[15]
}

/// Whether bytes break off within a header, behind the endpoints that it names.
pub open spec fn cut_off(bytes: Seq<u8>) -> bool {
    text_cut_off(bytes) || binary_cut_off(bytes)
}

/// Calls `proxy_protocol::parse` on a slice, which it advances past the header.
///
/// The contract claims that what comes back is a function of the bytes, and that no more bytes
/// are left over than were given. The function reads past the end of bytes that break off
/// behind the endpoints of a header, and panics, so those are left out. In a text header that
/// is where it has read the last port and a carriage return, and looks for the line feed; with
/// a line feed it would be through. A last port of a single character fails before that,
/// because fewer than four bytes are left. In a binary header it is where it skips what
/// follows the addresses.
#[verifier::external_body]
fn parse(bytes: &[u8]) -> (header: Result<ProxyHeader, proxy_protocol::ParseError>)
    requires
        !cut_off(bytes@),
    ensures
        match header {
            Ok(header) => header_of(bytes@) == Some(header@) && header.rest <= bytes@.len(),
            Err(_) => header_of(bytes@) is None,
        },
{
    let mut left = bytes;
    let header = proxy_protocol::parse(&mut left)?;
    let binary = match &header {
        Version2 { command, transport_protocol, .. } => Some((*command as u8, *transport_protocol as u8)),
        _ => None,
    };
    let endpoints = match header {
        Version1 { addresses: TextAddresses::Ipv4 { source: s, destination: d } }
        | Version2 { addresses: BinaryAddresses::Ipv4 { source: s, destination: d }, .. } => Some((s.to_string(), d.to_string())),
        Version1 { addresses: TextAddresses::Ipv6 { source: s, destination: d } }
        | Version2 { addresses: BinaryAddresses::Ipv6 { source: s, destination: d }, .. } => Some((s.to_string(), d.to_string())),
        _ => None,
    };
    Ok(ProxyHeader { binary, endpoints, rest: left.len() })
}

/// The endpoints that stand for those of the connection: none where the proxy speaks for
/// itself, or for something else than a byte stream.
pub open spec fn proxied_endpoints(
    header: (Option<(u8, u8)>, Option<(Seq<char>, Seq<char>)>, nat),
) -> Option<(Seq<char>, Seq<char>)> {
    match header.0 {
        Some((command, transport)) => if command == COMMAND_LOCAL || transport
            != TRANSPORT_STREAM {
            None
        } else {
            header.1
        },
        None => header.1,
    }
}

/// Returns the endpoints that stand for those of the connection, if the header names any.
pub fn handle_header(header: ProxyHeader) -> (endpoints: Option<(String, String)>)
    ensures
        endpoint_texts(endpoints) == proxied_endpoints(header@),
{
    match header.binary {
        Some((command, transport)) => {
            if command == COMMAND_LOCAL {
                return None;
            }
            if transport != TRANSPORT_STREAM {
                return None;
            }
            header.endpoints
        },
        None => header.endpoints,
    }
}

/// Why a connection does not begin with a header.
#[derive(Debug)]
pub enum ProxyError {
    /// The bytes break off within a header, behind the endpoints that it names.
    Truncated,
    /// The bytes do not begin with a header.
    Invalid(proxy_protocol::ParseError),
}

/// What a header says of a connection.
#[derive(Debug)]
pub struct Proxied {
    /// Address of the client, where the header names it.
    pub source: Option<String>,
    /// Number of bytes that the header takes.
    pub header_len: usize,
}

fn has_prefix(bytes: &[u8], first: &[u8]) -> (has: bool)
    ensures
        has == begins_with(bytes@, first@),
{
    if bytes.len() < first.len() {
        return false;
    }
    let mut i: usize = 0;
    while i < first.len()
        invariant
            i <= first.len() <= bytes.len(),
            forall|j: int| 0 <= j < i ==> bytes@[j] == first@[j],
        decreases first.len() - i,
    {
        if bytes[i] != first[i] {
            assert(bytes@.take(first@.len() as int)[i as int] != first@[i as int]);
            return false;
        }
        i = i + 1;
    }
    assert(bytes@.take(first@.len() as int) =~= first@);
    true
}

fn is_text_cut_off(bytes: &[u8]) -> (is: bool)
    ensures
        is == text_cut_off(bytes@),
{
    let signature: [u8; 6] = [0x50, 0x52, 0x4f, 0x58, 0x59, 0x20];
    assert(signature@ =~= text_signature());
    if !has_prefix(bytes, signature.as_slice()) {
        return false;
    }
    if bytes[bytes.len() - 1] != 0x0d || bytes[bytes.len() - 3] == 0x20 {
        return false;
    }
    let mut ended: Vec<u8> = Vec::with_capacity(bytes.len());
    ended.extend_from_slice(bytes);
    ended.push(0x0a);
    assert(ended@ =~= bytes@.push(0x0a));
    proof {
        assert(bytes@.take(6)[0] == 0x50);
        if begins_with(ended@, binary_signature()) {
            assert(ended@.take(12)[0] == 0x0d);
        }
    }
    match parse(ended.as_slice()) {
        Ok(header) => header.endpoints.is_some() && header.rest == 0,
        Err(_) => false,
    }
}

fn is_binary_cut_off(bytes: &[u8]) -> (is: bool)
    ensures
        is == binary_cut_off(bytes@),
{
    let signature: [u8; 12] = [
        0x0d,
        0x0a,
        0x0d,
        0x0a,
        0x00,
        0x0d,
        0x0a,
        0x51,
        0x55,
        0x49,
        0x54,
        0x0a,
    ];
    assert(signature@ =~= binary_signature());
    if !has_prefix(bytes, signature.as_slice()) || bytes.len() < 16 {
        return false;
    }
    if bytes[12] / 16 != 2 || bytes[12] % 16 > 1 || bytes[13] % 16 > 2 {
        return false;
    }
    let family: u8 = bytes[13] / 16;
    let addresses: usize = if family == 1 {
        12
    } else if family == 2 {
        36
    } else if family == 3 {
        216
    } else {
        return false;
    };
    let length: usize = 256 * bytes[14] as usize + bytes[15] as usize;
    bytes.len() >= 16 + addresses && bytes.len() < 16 + length
}

/// What the first bytes of a connection say of it, given the header that they hold.
pub open spec fn proxied(
    len: nat,
    header: (Option<(u8, u8)>, Option<(Seq<char>, Seq<char>)>, nat),
) -> (Option<Seq<char>>, int) {
    (
        match proxied_endpoints(header) {
            Some((source, _)) => Some(source),
            None => None,
        },
        len - header.2,
    )
}

/// Reads the header at the beginning of the bytes that have arrived on a connection.
pub fn read_header(bytes: &[u8]) -> (read: Result<Proxied, ProxyError>)
    ensures
        match read {
            Ok(read) => {
                &&& !cut_off(bytes@)
                &&& header_of(bytes@) is Some
                &&& (source_text(read), read.header_len as int) == proxied(
                    bytes@.len(),
                    header_of(bytes@)->0,
                )
            },
            Err(ProxyError::Truncated) => cut_off(bytes@),
            Err(ProxyError::Invalid(_)) => !cut_off(bytes@) && header_of(bytes@) is None,
        },
{
    if is_text_cut_off(bytes) || is_binary_cut_off(bytes) {
        return Err(ProxyError::Truncated);
    }
    match parse(bytes) {
        Ok(header) => Ok(conclude_header(bytes.len(), header)),
        Err(error) => Err(ProxyError::Invalid(error)),
    }
}

/// Text of the address of the client, where the header names it.
pub open spec fn source_text(read: Proxied) -> Option<Seq<char>> {
    match read.source {
        Some(source) => Some(source@),
        None => None,
    }
}

/// Tells what a header says of a connection on which `len` bytes have arrived.
pub fn conclude_header(len: usize, header: ProxyHeader) -> (read: Proxied)
    requires
        header.rest <= len,
    ensures
        (source_text(read), read.header_len as int) == proxied(len as nat, header@),
{
    let header_len: usize = len - header.rest;
    let source = match handle_header(header) {
        Some((source, _)) => Some(source),
        None => None,
    };
    Proxied { source, header_len }
}

/// A proxy that speaks for itself, as it does to see whether the listener is alive, changes
/// nothing about the endpoints of the connection; nor does one that speaks for datagrams.
pub proof fn only_relayed_streams_change_the_endpoints(
    command: u8,
    transport: u8,
    endpoints: Option<(Seq<char>, Seq<char>)>,
    rest: nat,
)
    ensures
        proxied_endpoints((Some((command, transport)), endpoints, rest)) is Some
            ==> command != COMMAND_LOCAL && transport == TRANSPORT_STREAM && endpoints
            == proxied_endpoints((Some((command, transport)), endpoints, rest)),
        proxied_endpoints((None, endpoints, rest)) == endpoints,
{
}

/// The client of a connection is the source that its header names: in a text header always, in
/// a binary header where the proxy relays a byte stream. What follows the header is not part of
/// it.
pub proof fn relayed_clients_are_named(
    source: Seq<char>,
    destination: Seq<char>,
    command: u8,
    transport: u8,
    len: nat,
    rest: nat,
)
    ensures
        proxied(len, (None, Some((source, destination)), rest)) == (Some(source), len - rest),
        proxied(len, (Some((1, 1)), Some((source, destination)), rest)) == (
            Some(source),
            len - rest,
        ),
        proxied(len, (Some((0, transport)), Some((source, destination)), rest)) == (
            None::<Seq<char>>,
            len - rest,
        ),
        transport != 1 ==> proxied(
            len,
            (Some((command, transport)), Some((source, destination)), rest),
        ) == (None::<Seq<char>>, len - rest),
        proxied(len, (Some((command, transport)), None, rest)) == (None::<Seq<char>>, len - rest),
        proxied(len, (None, None, rest)) == (None::<Seq<char>>, len - rest),
        proxied_endpoints((Some((1, 1)), Some((source, destination)), rest)) == Some(
            (source, destination),
        ),
        COMMAND_LOCAL == 0,
        TRANSPORT_STREAM == 1,
{
}

/// A binary header breaks off where its addresses have arrived and the length that it announces
/// has not: twelve bytes of addresses for IPv4, thirty-six for IPv6, two hundred and sixteen for
/// local sockets. A header that has arrived whole does not break off, nor do bytes of any other
/// kind.
pub proof fn short_headers_break_off(bytes: Seq<u8>)
    ensures
        ({
            let signed = bytes.len() >= 16 && bytes.take(12) == seq![
                0x0du8,
                0x0au8,
                0x0du8,
                0x0au8,
                0x00u8,
                0x0du8,
                0x0au8,
                0x51u8,
                0x55u8,
                0x49u8,
                0x54u8,
                0x0au8,
            ];
            let announced = 16 + 256 * bytes[14] + bytes[15];
            let known = (bytes[12] == 0x20 || bytes[12] == 0x21) && bytes[13] % 16 <= 2;
            let family = bytes[13] as int / 16;
            &&& signed && known && family == 1 ==> (binary_cut_off(bytes) <==> 28 <= bytes.len()
                < announced)
            &&& signed && known && family == 2 ==> (binary_cut_off(bytes) <==> 52 <= bytes.len()
                < announced)
            &&& signed && known && family == 3 ==> (binary_cut_off(bytes) <==> 232 <= bytes.len()
                < announced)
            &&& !signed || !known || family == 0 || family > 3 ==> !binary_cut_off(bytes)
        }),
{
    if bytes.len() >= 16 {
        assert(bytes[12] / 16 == 2 && bytes[12] % 16 <= 1 <==> bytes[12] == 0x20 || bytes[12]
            == 0x21);
    }
}

/// A text header breaks off where nothing but the line feed of a header with endpoints is
/// missing; bytes that do not begin with `PROXY ` are no such header.
pub proof fn text_headers_break_off_at_their_line_end(bytes: Seq<u8>)
    ensures
        text_cut_off(bytes) ==> bytes.len() >= 6 && bytes.take(6) == seq![
            0x50u8,
            0x52u8,
            0x4fu8,
            0x58u8,
            0x59u8,
            0x20u8,
        ] && bytes.last() == 0x0d && (header_of(bytes.push(0x0a)) matches Some((_, Some(_), rest))
            && rest == 0),
        bytes.len() >= 6 && bytes.take(6) == seq![
            0x50u8,
            0x52u8,
            0x4fu8,
            0x58u8,
            0x59u8,
            0x20u8,
        ] && bytes.last() == 0x0d && bytes[bytes.len() - 3] != 0x20 && (
        header_of(bytes.push(0x0a)) matches Some((_, Some(_), rest)) && rest == 0)
            ==> text_cut_off(bytes),
        cut_off(bytes) <==> text_cut_off(bytes) || binary_cut_off(bytes),
{
}

} // verus!
