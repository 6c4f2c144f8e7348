use sni_relay::sni::extract_sni;
use sni_relay::sni::ExtractError;

/// Builds the TLS record for a ClientHello whose body ends with the given
/// raw extensions block, or with no block at all.
fn client_hello(ext_block: Option<&[u8]>) -> Vec<u8> {
    let mut body: Vec<u8> = vec![3, 3];
    body.extend(std::iter::repeat(0u8).take(32));
    body.push(0);
    body.extend([0u8, 2]);
    body.extend([0x13u8, 0x01]);
    body.push(1);
    body.push(0);
    if let Some(e) = ext_block {
        body.push((e.len() >> 8) as u8);
        body.push((e.len() & 0xff) as u8);
        body.extend(e);
    }
    let mut hs: Vec<u8> = vec![1];
    hs.push((body.len() >> 16) as u8);
    hs.push((body.len() >> 8) as u8);
    hs.push((body.len() & 0xff) as u8);
    hs.extend(body);
    let mut rec: Vec<u8> = vec![22, 3, 1];
    rec.push((hs.len() >> 8) as u8);
    rec.push((hs.len() & 0xff) as u8);
    rec.extend(hs);
    rec
}

/// One extension entry: type, length, value.
fn ext_entry(ty: u16, value: &[u8]) -> Vec<u8> {
    let mut v: Vec<u8> = vec![(ty >> 8) as u8, (ty & 0xff) as u8];
    v.push((value.len() >> 8) as u8);
    v.push((value.len() & 0xff) as u8);
    v.extend(value);
    v
}

/// The value of a server_name extension holding one host name entry.
fn sni_value(host: &[u8]) -> Vec<u8> {
    let list_len = 3 + host.len();
    let mut v: Vec<u8> = vec![(list_len >> 8) as u8, (list_len & 0xff) as u8];
    v.push(0);
    v.push((host.len() >> 8) as u8);
    v.push((host.len() & 0xff) as u8);
    v.extend(host);
    v
}

fn hello_with_sni(host: &[u8]) -> Vec<u8> {
    client_hello(Some(&ext_entry(0, &sni_value(host))))
}

#[test]
fn finds_host_name() {
    let buf = hello_with_sni(b"example.com");
    assert_eq!(extract_sni(&buf), Ok("example.com".to_string()));
}

#[test]
fn trailing_peek_padding_is_ignored() {
    let mut buf = hello_with_sni(b"example.com");
    while buf.len() < 2048 {
        buf.push(0);
    }
    assert_eq!(extract_sni(&buf), Ok("example.com".to_string()));
}

#[test]
fn finds_sni_after_other_extensions() {
    let mut block = ext_entry(16, b"\x00\x03\x02h2");
    block.extend(ext_entry(0, &sni_value(b"test.example.org")));
    block.extend(ext_entry(43, b"\x02\x03\x04"));
    let buf = client_hello(Some(&block));
    assert_eq!(extract_sni(&buf), Ok("test.example.org".to_string()));
}

#[test]
fn first_name_entry_wins() {
    let mut value = sni_value(b"first.example");
    let second = b"second.example";
    value.push(0);
    value.push((second.len() >> 8) as u8);
    value.push((second.len() & 0xff) as u8);
    value.extend(second);
    let new_list_len = value.len() - 2;
    value[0] = (new_list_len >> 8) as u8;
    value[1] = (new_list_len & 0xff) as u8;
    let buf = client_hello(Some(&ext_entry(0, &value)));
    assert_eq!(extract_sni(&buf), Ok("first.example".to_string()));
}

#[test]
fn garbage_is_protocol_error() {
    let buf = b"GET / HTTP/1.1\r\nHost:";
    assert_eq!(extract_sni(&buf[..20]), Err(ExtractError::ProtocolError));
}

#[test]
fn empty_buffer_is_protocol_error() {
    assert_eq!(extract_sni(&[]), Err(ExtractError::ProtocolError));
}

#[test]
fn short_header_is_protocol_error() {
    assert_eq!(extract_sni(&[22, 3, 1]), Err(ExtractError::ProtocolError));
}

#[test]
fn truncated_record_is_protocol_error() {
    let mut buf = hello_with_sni(b"example.com");
    buf.truncate(buf.len() - 1);
    assert_eq!(extract_sni(&buf), Err(ExtractError::ProtocolError));
}

#[test]
fn bad_version_is_protocol_error() {
    let mut buf = hello_with_sni(b"example.com");
    buf[1] = 2;
    assert_eq!(extract_sni(&buf), Err(ExtractError::ProtocolError));
    let mut buf2 = hello_with_sni(b"example.com");
    buf2[2] = 9;
    assert_eq!(extract_sni(&buf2), Err(ExtractError::ProtocolError));
}

#[test]
fn unknown_content_type_is_protocol_error() {
    let mut buf = hello_with_sni(b"example.com");
    buf[0] = 99;
    assert_eq!(extract_sni(&buf), Err(ExtractError::ProtocolError));
}

#[test]
fn alert_record_is_unexpected_handshake() {
    let buf = [21u8, 3, 3, 0, 2, 2, 40];
    assert_eq!(extract_sni(&buf), Err(ExtractError::UnexpectedHandshakeType));
}

#[test]
fn server_hello_is_unexpected_handshake() {
    let mut buf = hello_with_sni(b"example.com");
    buf[5] = 2;
    assert_eq!(extract_sni(&buf), Err(ExtractError::UnexpectedHandshakeType));
}

#[test]
fn no_extension_block_is_missing_extensions() {
    let buf = client_hello(None);
    assert_eq!(extract_sni(&buf), Err(ExtractError::MissingExtensions));
}

#[test]
fn no_sni_entry_is_not_found() {
    let mut block = ext_entry(16, b"\x00\x03\x02h2");
    block.extend(ext_entry(43, b"\x02\x03\x04"));
    let buf = client_hello(Some(&block));
    assert_eq!(extract_sni(&buf), Err(ExtractError::SniNotFound));
}

#[test]
fn empty_extension_block_is_not_found() {
    let buf = client_hello(Some(&[]));
    assert_eq!(extract_sni(&buf), Err(ExtractError::SniNotFound));
}

#[test]
fn overlong_extension_entry_is_parse_error() {
    let buf = client_hello(Some(&[0, 0, 0, 10]));
    assert_eq!(extract_sni(&buf), Err(ExtractError::ExtensionParseError));
}

#[test]
fn short_extension_header_is_parse_error() {
    let buf = client_hello(Some(&[0, 0, 0]));
    assert_eq!(extract_sni(&buf), Err(ExtractError::ExtensionParseError));
}

#[test]
fn malformed_sni_value_is_parse_error() {
    let buf = client_hello(Some(&ext_entry(0, b"\x00")));
    assert_eq!(extract_sni(&buf), Err(ExtractError::ExtensionParseError));
}

#[test]
fn empty_sni_list_is_parse_error() {
    let buf = client_hello(Some(&ext_entry(0, &[0, 0])));
    assert_eq!(extract_sni(&buf), Err(ExtractError::ExtensionParseError));
}

#[test]
fn invalid_utf8_name_is_parse_error() {
    let buf = hello_with_sni(&[0xff, 0xfe, 0xfd]);
    assert_eq!(extract_sni(&buf), Err(ExtractError::ExtensionParseError));
}

#[test]
fn utf8_name_is_decoded() {
    let buf = hello_with_sni("bücher.example".as_bytes());
    assert_eq!(extract_sni(&buf), Ok("bücher.example".to_string()));
}

#[test]
fn same_buffer_same_result() {
    let ok = hello_with_sni(b"example.com");
    assert_eq!(extract_sni(&ok), extract_sni(&ok));
    let bad = b"not tls at all, not even close....";
    assert_eq!(extract_sni(bad), extract_sni(bad));
}
