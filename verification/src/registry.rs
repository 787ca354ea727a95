//! The run record: what a running server leaves for later invocations.
//!
//! The record is written once the server is bound and removed when it stops
//! cleanly. A record alone proves nothing: the server may have died without
//! removing it. So a record is trusted only after its port was seen to
//! answer, and a record whose port does not answer is removed and counts for
//! nothing.

use vstd::prelude::*;
use vstd::string::StringExecFns;
use crate::decimal::{decimal, push_decimal};
use crate::routes::{BOOTSTRAP_PATH, TOKEN_PARAMETER};
use crate::text::{append, from_chars, to_chars};

verus! {

/// The directory of the run record, under the configuration directory.
pub const RUN_DIR: &'static str = "run";

/// The file of the run record.
pub const RUN_FILE: &'static str = "pid.yaml";

/// How long a liveness probe waits for the port, in milliseconds.
pub const LIVENESS_TIMEOUT_MS: u64 = 200;

/// The record of a running server.
#[derive(Clone, Debug, PartialEq, Eq)]
pub struct RunInfo {
    /// The process id of the server.
    pub pid: u32,
    /// The port it is bound to.
    pub port: u16,
    /// Its session secret.
    pub auth_token: String,
    /// Whether it serves TLS.
    pub tls: bool,
}

/// A run record as a mathematical value.
pub struct RunInfoView {
    pub pid: u32,
    pub port: u16,
    pub auth_token: Seq<char>,
    pub tls: bool,
}

impl View for RunInfo {
    type V = RunInfoView;

    open spec fn view(&self) -> RunInfoView {
        RunInfoView { pid: self.pid, port: self.port, auth_token: self.auth_token@, tls: self.tls }
    }
}

/// The view of an optional record.
pub open spec fn record_of(r: Option<RunInfo>) -> Option<RunInfoView> {
    match r {
        Some(info) => Some(info@),
        None => None,
    }
}

/// What a loaded record is worth.
pub struct Vetted {
    /// The running server, if there is one.
    pub instance: Option<RunInfo>,
    /// Whether a stale record lies on disk and must be removed.
    pub clear: bool,
}

/// The running server that a loaded record stands for: the record itself
/// where its port answers, none where it does not.
pub open spec fn live_instance(record: Option<RunInfoView>, port_open: bool) -> Option<
    RunInfoView,
> {
    if port_open {
        record
    } else {
        None
    }
}

/// Whether a loaded record is stale: there is one, and its port does not
/// answer.
pub open spec fn is_stale(record: Option<RunInfoView>, port_open: bool) -> bool {
    record is Some && !port_open
}

/// Judges a loaded record by the probe of its port. `port_open` is looked at
/// only where there is a record.
pub fn vet_record(record: Option<RunInfo>, port_open: bool) -> (vetted: Vetted)
    ensures
        record_of(vetted.instance) == live_instance(record_of(record), port_open),
        vetted.clear == is_stale(record_of(record), port_open),
{
    match record {
        None => Vetted { instance: None, clear: false },
        Some(info) => {
            if port_open {
                Vetted { instance: Some(info), clear: false }
            } else {
                Vetted { instance: None, clear: true }
            }
        },
    }
}

/// A record whose port does not answer stands for no server, as if there
/// were no record at all.
pub proof fn lemma_stale_is_absent(record: RunInfoView, port_open: bool)
    ensures
        live_instance(Some(record), false) == live_instance(None, port_open),
        live_instance(Some(record), false) is None,
        is_stale(Some(record), false),
        !is_stale(None, port_open),
{
}

/// The scheme of the URLs of a server.
pub open spec fn scheme(tls: bool) -> Seq<char> {
    if tls {
        "https"@
    } else {
        "http"@
    }
}

/// The scheme of the URLs of a server.
pub fn scheme_name(tls: bool) -> (name: &'static str)
    ensures
        name@ == scheme(tls),
{
    if tls {
        "https"
    } else {
        "http"
    }
}

/// The URL that opens a browser session: the bootstrap path on the loopback
/// address, with the secret in the query.
pub open spec fn bootstrap_url_text(tls: bool, port: u16, token: Seq<char>) -> Seq<char> {
    scheme(tls) + "://127.0.0.1:"@ + decimal(port as nat) + BOOTSTRAP_PATH@ + "?"@
        + TOKEN_PARAMETER@ + "="@ + token
}

/// Writes the bootstrap URL.
pub fn bootstrap_url(tls: bool, port: u16, token: &str) -> (url: String)
    ensures
        url@ == bootstrap_url_text(tls, port, token@),
{
    let mut out = if tls {
        to_chars("https")
    } else {
        to_chars("http")
    };
    append(&mut out, &to_chars("://127.0.0.1:"));
    push_decimal(&mut out, port as u32);
    append(&mut out, &to_chars(BOOTSTRAP_PATH));
    append(&mut out, &to_chars("?"));
    append(&mut out, &to_chars(TOKEN_PARAMETER));
    append(&mut out, &to_chars("="));
    append(&mut out, &to_chars(token));
    assert(out@ =~= bootstrap_url_text(tls, port, token@));
    from_chars(&out)
}

impl RunInfo {
    /// The record of a server that has just been bound.
    pub fn new(pid: u32, port: u16, auth_token: &str, tls: bool) -> (info: RunInfo)
        ensures
            info@ == (RunInfoView { pid, port, auth_token: auth_token@, tls }),
    {
        RunInfo { pid, port, auth_token: String::from_str(auth_token), tls }
    }

    /// The bootstrap URL of the server that this record stands for.
    pub fn url(&self) -> (url: String)
        ensures
            url@ == bootstrap_url_text(self@.tls, self@.port, self@.auth_token),
    {
        bootstrap_url(self.tls, self.port, self.auth_token.as_str())
    }
}

} // verus!
