//! Bind addresses of the form `host:port`.
//!
//! The configured address is a template: its port is where the search for a
//! free port begins. Once a port is chosen the address is written out again
//! with that port, and read back on the next start.

use vstd::prelude::*;
use crate::decimal::{decimal, lemma_decimal_value, parse_port, push_decimal, read_port};
use crate::text::{append, from_chars, lemma_rfind_before, rfind, rfind_char, slice, to_chars};

verus! {

/// Why an address was rejected.
#[derive(Clone, Copy, Debug, PartialEq, Eq, Structural)]
pub enum AddrError {
    /// The address holds no `:`.
    MissingPort,
    /// What follows the last `:` is not a port number.
    InvalidPort,
}

/// What an address splits into: the text before its last `:` as the host,
/// and the text after it read as a port number.
pub open spec fn split_addr(addr: Seq<char>) -> Result<(Seq<char>, u16), AddrError> {
    match rfind(addr, ':') {
        None => Err(AddrError::MissingPort),
        Some(pos) => match parse_port(addr.subrange(pos + 1, addr.len() as int)) {
            Some(port) => Ok((addr.subrange(0, pos), port)),
            None => Err(AddrError::InvalidPort),
        },
    }
}

/// `host`, a colon and `port` in decimal.
pub open spec fn join_addr(host: Seq<char>, port: u16) -> Seq<char> {
    host + seq![':'] + decimal(port as nat)
}

/// The view of a split result.
pub open spec fn split_view(r: Result<(String, u16), AddrError>) -> Result<
    (Seq<char>, u16),
    AddrError,
> {
    match r {
        Ok((host, port)) => Ok((host@, port)),
        Err(e) => Err(e),
    }
}

/// Splits `host:port` at its last colon.
pub fn split_host_port(addr: &str) -> (r: Result<(String, u16), AddrError>)
    ensures
        split_view(r) == split_addr(addr@),
{
    let chars = to_chars(addr);
    match rfind_char(&chars, ':') {
        None => Err(AddrError::MissingPort),
        Some(pos) => {
            let port_text = slice(&chars, pos + 1, chars.len());
            match read_port(&port_text) {
                None => Err(AddrError::InvalidPort),
                Some(port) => {
                    let host = slice(&chars, 0, pos);
                    Ok((from_chars(&host), port))
                },
            }
        },
    }
}

/// Writes `host:port`.
pub fn host_port(host: &str, port: u16) -> (addr: String)
    ensures
        addr@ == join_addr(host@, port),
{
    let mut out = to_chars(host);
    out.push(':');
    push_decimal(&mut out, port as u32);
    from_chars(&out)
}

impl AddrError {
    /// The text of the diagnostic for `addr`.
    pub open spec fn message(self, addr: Seq<char>) -> Seq<char> {
        match self {
            AddrError::MissingPort => "addr must be in host:port form, got: "@ + addr,
            AddrError::InvalidPort => "invalid port in addr: "@ + addr,
        }
    }

    /// The diagnostic shown for the rejected address `addr`.
    pub fn describe(&self, addr: &str) -> (text: String)
        ensures
            text@ == self.message(addr@),
    {
        let mut out = match self {
            AddrError::MissingPort => to_chars("addr must be in host:port form, got: "),
            AddrError::InvalidPort => to_chars("invalid port in addr: "),
        };
        let rest = to_chars(addr);
        append(&mut out, &rest);
        from_chars(&out)
    }
}

/// No colon stands in a number written in decimal.
proof fn lemma_decimal_has_no_colon(n: nat)
    ensures
        forall|i: int| 0 <= i < decimal(n).len() ==> decimal(n)[i] != ':',
{
    lemma_decimal_value(n);
    assert forall|i: int| 0 <= i < decimal(n).len() implies decimal(n)[i] != ':' by {
        assert(crate::decimal::is_digit(decimal(n)[i]));
    }
}

/// An address written from a host and a port splits into that host and that
/// port, whatever the host holds.
pub proof fn lemma_split_of_join(host: Seq<char>, port: u16)
    ensures
        split_addr(join_addr(host, port)) == Ok::<(Seq<char>, u16), AddrError>((host, port)),
{
    let digits = decimal(port as nat);
    let addr = join_addr(host, port);
    let pos = host.len() as int;
    lemma_decimal_value(port as nat);
    lemma_decimal_has_no_colon(port as nat);
    lemma_rfind_before(addr, ':', addr.len() as int);
    assert(addr[pos] == ':');
    assert forall|j: int| pos < j < addr.len() implies addr[j] != ':' by {
        assert(addr[j] == digits[j - pos - 1]);
    }
    assert(rfind(addr, ':') == Some(pos));
    assert(addr.subrange(pos + 1, addr.len() as int) == digits);
    assert(addr.subrange(0, pos) == host);
}

} // verus!
