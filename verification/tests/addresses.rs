use tbl::addr::{host_port, split_host_port, AddrError};
use tbl::decimal::{format_decimal, read_port};
use tbl::text::{from_chars, to_chars};

fn port_of(text: &str) -> Option<u16> {
    read_port(&to_chars(text))
}

#[test]
fn splits_the_default_address() {
    assert_eq!(split_host_port("127.0.0.1:1234"), Ok(("127.0.0.1".to_string(), 1234)));
}

#[test]
fn splits_at_the_last_colon() {
    assert_eq!(split_host_port("[::1]:8443"), Ok(("[::1]".to_string(), 8443)));
    assert_eq!(split_host_port("a:b:99"), Ok(("a:b".to_string(), 99)));
}

#[test]
fn empty_host_is_allowed() {
    assert_eq!(split_host_port(":80"), Ok((String::new(), 80)));
}

#[test]
fn address_without_colon_is_rejected() {
    assert_eq!(split_host_port("localhost"), Err(AddrError::MissingPort));
    assert_eq!(split_host_port(""), Err(AddrError::MissingPort));
}

#[test]
fn address_with_bad_port_is_rejected() {
    assert_eq!(split_host_port("localhost:"), Err(AddrError::InvalidPort));
    assert_eq!(split_host_port("localhost:http"), Err(AddrError::InvalidPort));
    assert_eq!(split_host_port("localhost:65536"), Err(AddrError::InvalidPort));
    assert_eq!(split_host_port("localhost:-1"), Err(AddrError::InvalidPort));
    assert_eq!(split_host_port("localhost: 80"), Err(AddrError::InvalidPort));
    assert_eq!(split_host_port("localhost:80 "), Err(AddrError::InvalidPort));
    assert_eq!(split_host_port("localhost:8o"), Err(AddrError::InvalidPort));
}

#[test]
fn port_limits() {
    assert_eq!(split_host_port("h:0"), Ok(("h".to_string(), 0)));
    assert_eq!(split_host_port("h:65535"), Ok(("h".to_string(), 65535)));
    assert_eq!(split_host_port("h:99999999999999999999"), Err(AddrError::InvalidPort));
}

#[test]
fn port_reads_as_the_standard_library_reads_it() {
    for text in [
        "0", "7", "80", "+80", "0080", "+0", "65535", "65536", "000065535", "", "+", "-", "++1",
        "+-1", "-0", "1 ", " 1", "12a", "٣", "4294967296", "18446744073709551616",
    ] {
        assert_eq!(port_of(text), text.parse::<u16>().ok(), "reading {:?}", text);
    }
}

#[test]
fn every_port_survives_writing_and_reading() {
    for port in [0u16, 1, 9, 10, 99, 100, 1234, 9999, 10000, 65534, 65535] {
        let written = host_port("example.org", port);
        assert_eq!(written, format!("example.org:{}", port));
        assert_eq!(split_host_port(&written), Ok(("example.org".to_string(), port)));
    }
}

#[test]
fn host_with_colons_survives_writing_and_reading() {
    let written = host_port("::1", 1237);
    assert_eq!(written, "::1:1237");
    assert_eq!(split_host_port(&written), Ok(("::1".to_string(), 1237)));
}

#[test]
fn decimal_is_written_without_padding() {
    for n in [0u32, 5, 10, 42, 100, 65535, 4294967295] {
        assert_eq!(from_chars(&format_decimal(n)), n.to_string());
    }
}

#[test]
fn diagnostics_quote_the_address() {
    assert_eq!(
        AddrError::MissingPort.describe("localhost"),
        "addr must be in host:port form, got: localhost"
    );
    assert_eq!(AddrError::InvalidPort.describe("h:x"), "invalid port in addr: h:x");
}
