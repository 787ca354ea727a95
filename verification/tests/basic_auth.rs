use base64::engine::general_purpose::STANDARD;
use base64::Engine;
use tbl::basic::{check_basic_auth, credentials_match};

fn header(credentials: &[u8]) -> String {
    format!("Basic {}", STANDARD.encode(credentials))
}

#[test]
fn right_credentials_pass() {
    assert!(check_basic_auth(Some("Basic dXNlcjpwYXNz"), "user", "pass"));
    assert!(check_basic_auth(Some(&header(b"user:pass")), "user", "pass"));
}

#[test]
fn wrong_credentials_fail() {
    assert!(!check_basic_auth(Some("Basic dXNlcjpwYXNz"), "user", "other"));
    assert!(!check_basic_auth(Some("Basic dXNlcjpwYXNz"), "other", "pass"));
    assert!(!check_basic_auth(Some("Basic dXNlcjpwYXNz"), "pass", "user"));
    assert!(!check_basic_auth(Some("Basic dXNlcjpwYXNz"), "user", "pass "));
}

#[test]
fn missing_header_fails() {
    assert!(!check_basic_auth(None, "user", "pass"));
    assert!(!check_basic_auth(None, "", ""));
}

#[test]
fn other_schemes_fail() {
    assert!(!check_basic_auth(Some("Bearer dXNlcjpwYXNz"), "user", "pass"));
    assert!(!check_basic_auth(Some("basic dXNlcjpwYXNz"), "user", "pass"));
    assert!(!check_basic_auth(Some("BasicdXNlcjpwYXNz"), "user", "pass"));
    assert!(!check_basic_auth(Some("dXNlcjpwYXNz"), "user", "pass"));
    assert!(!check_basic_auth(Some(" Basic dXNlcjpwYXNz"), "user", "pass"));
}

#[test]
fn payload_must_be_base64() {
    assert!(!check_basic_auth(Some("Basic user:pass"), "user", "pass"));
    assert!(!check_basic_auth(Some("Basic dXNlcjpwYXNz "), "user", "pass"));
    assert!(!check_basic_auth(Some("Basic  dXNlcjpwYXNz"), "user", "pass"));
    assert!(!check_basic_auth(Some("Basic dXNlcjpwYXN"), "user", "pas"));
}

#[test]
fn payload_is_decoded_not_compared() {
    assert!(!check_basic_auth(Some("Basic dXNlcjpwYXNz"), "dXNlcjpwYXNz", ""));
    assert!(!check_basic_auth(Some("Basic dXNlcjpwYXNz"), "dXNlcjpwYXNz", "dXNlcjpwYXNz"));
}

#[test]
fn password_may_hold_colons() {
    assert!(check_basic_auth(Some(&header(b"user:pa:ss")), "user", "pa:ss"));
    assert!(!check_basic_auth(Some(&header(b"user:pa:ss")), "user:pa", "ss"));
}

#[test]
fn credentials_without_colon_have_an_empty_password() {
    assert!(check_basic_auth(Some(&header(b"user")), "user", ""));
    assert!(!check_basic_auth(Some(&header(b"user")), "user", "pass"));
    assert!(check_basic_auth(Some("Basic "), "", ""));
    assert!(check_basic_auth(Some(&header(b":")), "", ""));
    assert!(check_basic_auth(Some(&header(b":pass")), "", "pass"));
}

#[test]
fn credentials_must_be_utf8() {
    assert!(!check_basic_auth(Some(&header(&[0xff, b':', b'p'])), "\u{ff}", "p"));
    assert!(!credentials_match(vec![0xff, b':', b'p'], "\u{ff}", "p"));
    assert!(!credentials_match(vec![0xc3], "", ""));
}

#[test]
fn credentials_may_be_any_utf8_text() {
    assert!(check_basic_auth(Some(&header("jürgen:pässwörd".as_bytes())), "jürgen", "pässwörd"));
    assert!(credentials_match("jürgen:€".as_bytes().to_vec(), "jürgen", "€"));
    assert!(credentials_match(b"user:pass".to_vec(), "user", "pass"));
    assert!(!credentials_match(b"user:pass".to_vec(), "user", "pas"));
    assert!(credentials_match(Vec::new(), "", ""));
}
