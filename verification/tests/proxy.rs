use rmqtt::proxy::{conclude_header, handle_header, read_header, ProxyError, ProxyHeader};

fn binary(command: u8, family_and_transport: u8, body: &[u8]) -> Vec<u8> {
    let mut bytes = b"\r\n\r\n\0\r\nQUIT\n".to_vec();
    bytes.push(0x20 | command);
    bytes.push(family_and_transport);
    bytes.extend_from_slice(&(body.len() as u16).to_be_bytes());
    bytes.extend_from_slice(body);
    bytes
}

const INET: [u8; 12] = [127, 0, 0, 1, 192, 168, 0, 1, 0xff, 0xff, 1, 1];

#[test]
fn text_header_names_the_client() {
    let mut bytes = b"PROXY TCP4 192.168.201.102 1.2.3.4 56324 443\r\n".to_vec();
    let header_len = bytes.len();
    bytes.extend_from_slice(b"\x10\x0c");
    let read = read_header(&bytes).unwrap();
    assert_eq!(read.source, Some("192.168.201.102:56324".to_string()));
    assert_eq!(read.header_len, header_len);
}

#[test]
fn text_header_of_an_unknown_connection_names_nobody() {
    let read = read_header(b"PROXY UNKNOWN\r\nrest").unwrap();
    assert_eq!(read.source, None);
    assert_eq!(read.header_len, 15);
}

#[test]
fn text_header_names_ipv6_clients() {
    let read = read_header(b"PROXY TCP6 ::1 ::2 80 443\r\n").unwrap();
    assert_eq!(read.source, Some("[::1]:80".to_string()));
}

#[test]
fn binary_header_names_the_client() {
    let mut bytes = binary(1, 0x11, &INET);
    bytes.push(0x10);
    let read = read_header(&bytes).unwrap();
    assert_eq!(read.source, Some("127.0.0.1:65535".to_string()));
    assert_eq!(read.header_len, 28);
}

#[test]
fn binary_header_may_hold_more_than_addresses() {
    let mut body = INET.to_vec();
    body.extend_from_slice(&[69, 0, 0]);
    let read = read_header(&binary(1, 0x11, &body)).unwrap();
    assert_eq!(read.source, Some("127.0.0.1:65535".to_string()));
    assert_eq!(read.header_len, 31);
}

#[test]
fn health_checks_and_datagrams_name_nobody() {
    assert_eq!(read_header(&binary(0, 0x11, &INET)).unwrap().source, None);
    assert_eq!(read_header(&binary(1, 0x12, &INET)).unwrap().source, None);
    assert_eq!(read_header(&binary(1, 0x10, &INET)).unwrap().source, None);
    assert_eq!(read_header(&binary(1, 0x01, &[])).unwrap().source, None);
    assert_eq!(read_header(&binary(1, 0x31, &[0; 216])).unwrap().source, None);
}

#[test]
fn headers_that_break_off_are_refused() {
    let mut body = INET.to_vec();
    body.extend_from_slice(&[69, 0, 0]);
    let bytes = binary(1, 0x11, &body);
    assert!(matches!(read_header(&bytes[..30]), Err(ProxyError::Truncated)));
    assert!(matches!(
        read_header(b"PROXY TCP4 1.2.3.4 1.2.3.4 1 22\r"),
        Err(ProxyError::Truncated)
    ));
    assert!(matches!(
        read_header(b"PROXY TCP6 ::1 ::2 80 443\r"),
        Err(ProxyError::Truncated)
    ));
    assert!(matches!(
        read_header(&binary(0, 0x31, &[0; 220])[..233]),
        Err(ProxyError::Truncated)
    ));
    assert!(read_header(b"PROXY TCP4 1.2.3.4 1.2.3.4 1 2\r\nmore\r").is_ok());
}

#[test]
fn other_bytes_are_no_header() {
    assert!(matches!(read_header(b""), Err(ProxyError::Invalid(_))));
    assert!(matches!(read_header(b"\x10\x0c\x00\x04MQTT"), Err(ProxyError::Invalid(_))));
    assert!(matches!(read_header(b"PROXY TCP9 \r\n"), Err(ProxyError::Invalid(_))));
    assert!(matches!(read_header(&binary(7, 0x11, &INET)), Err(ProxyError::Invalid(_))));
}

#[test]
fn endpoints_of_relayed_streams_are_taken() {
    let endpoints = || Some(("1.2.3.4:5".to_string(), "6.7.8.9:10".to_string()));
    let header = |binary| ProxyHeader { binary, endpoints: endpoints(), rest: 3 };
    assert_eq!(handle_header(header(None)), endpoints());
    assert_eq!(handle_header(header(Some((1, 1)))), endpoints());
    assert_eq!(handle_header(header(Some((0, 1)))), None);
    assert_eq!(handle_header(header(Some((1, 2)))), None);
    let read = conclude_header(20, header(None));
    assert_eq!(read.header_len, 17);
    assert_eq!(read.source, Some("1.2.3.4:5".to_string()));
}

#[test]
fn headers_that_break_off_early_are_no_headers() {
    assert!(matches!(
        read_header(b"PROXY TCP4 1.2.3.4 1.2.3.4 1 2\r"),
        Err(ProxyError::Invalid(_))
    ));
    assert!(matches!(
        read_header(b"PROXY TCP4 1.2.3.4 1.2.3.4 1 99999\r"),
        Err(ProxyError::Invalid(_))
    ));
    assert!(matches!(
        read_header(b"PROXY TCP4 1.2.3.4 nobody 1 22\r"),
        Err(ProxyError::Invalid(_))
    ));
    assert!(matches!(
        read_header(b"PROXY TCP4 1.2.3.4 1.2.3.4 1 22"),
        Err(ProxyError::Invalid(_))
    ));
    assert!(matches!(read_header(b"PROXY UNKNOWN\r"), Err(ProxyError::Invalid(_))));
    assert!(matches!(read_header(b"PROXY UNKNOWN 1.2.3.4 22\r"), Err(ProxyError::Invalid(_))));
    assert!(matches!(read_header(b"PROXY\x20"), Err(ProxyError::Invalid(_))));

    assert!(matches!(read_header(&binary(1, 0x11, &INET)[..27]), Err(ProxyError::Invalid(_))));
    assert!(matches!(read_header(&binary(1, 0x01, &INET)[..27]), Err(ProxyError::Invalid(_))));
    assert!(matches!(read_header(&binary(1, 0x41, &[0; 20])[..30]), Err(ProxyError::Invalid(_))));
    assert!(matches!(read_header(&binary(1, 0x13, &[0; 20])[..30]), Err(ProxyError::Invalid(_))));
    assert!(matches!(read_header(&binary(2, 0x11, &[0; 20])[..30]), Err(ProxyError::Invalid(_))));
    let mut wrong_version = binary(1, 0x11, &[0; 20]);
    wrong_version[12] = 0x31;
    assert!(matches!(read_header(&wrong_version[..30]), Err(ProxyError::Invalid(_))));
}
