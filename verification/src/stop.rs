//! Stopping a running server from another process.
//!
//! The stop command shares no memory with the server. It finds the server
//! through the run record, sends it one hand-built HTTP request over a plain
//! local connection, and then watches the port. The caller loads, probes,
//! sends and pauses; `StopState` says which of these comes next and what
//! each report means.
//!
//! The request is authorized by the secret in its cookie, not by the
//! transport: it is sent without TLS even to a server that serves TLS, which
//! is accepted because it never leaves the loopback interface.

use vstd::prelude::*;
use vstd::string::StringExecFns;
use crate::cookie::{cookie_header_for, cookie_safe, lemma_cookie_round_trip};
use crate::decimal::{decimal, push_decimal};
use crate::gate::{Access, GuardView, PresentedView};
use crate::routes::SHUTDOWN_PATH;
use crate::text::{
    append, contains, contains_text, find_char_from, find_from, from_chars, slice, to_chars,
};

verus! {

// ---------------------------------------------------------------------------
// The request and its answer
// ---------------------------------------------------------------------------

/// The shutdown request for the server on `port` that holds the secret
/// `token`: request line, headers and the empty line, with the secret in the
/// session cookie.
pub open spec fn shutdown_request_text(port: u16, token: Seq<char>) -> Seq<char> {
    "POST "@ + SHUTDOWN_PATH@ + " HTTP/1.1\r\nHost: 127.0.0.1:"@ + decimal(port as nat)
        + "\r\nCookie: "@ + cookie_header_for(token)
        + "\r\nContent-Length: 0\r\nConnection: close\r\n\r\n"@
}

/// What the shutdown request carries: the session cookie set to `token`,
/// and no `Authorization` header.
pub open spec fn carried_by_request(token: Seq<char>) -> PresentedView {
    PresentedView { authorization: None, cookie: Some(cookie_header_for(token)) }
}

/// Whether a response shows that the server took the request: it holds the
/// status `200` or the word `shutting_down`.
pub open spec fn acknowledges(response: Seq<char>) -> bool {
    contains_text(response, "200"@) || contains_text(response, "shutting_down"@)
}

/// The first line of `text`, without its line ending: up to the first line
/// feed, less one carriage return before it. Text without a line feed is
/// its own first line.
pub open spec fn first_line_of(text: Seq<char>) -> Seq<char> {
    let feed = find_from(text, '\n', 0);
    if feed < text.len() {
        let line = text.subrange(0, feed);
        if line.len() > 0 && line.last() == '\r' {
            line.drop_last()
        } else {
            line
        }
    } else {
        text
    }
}

/// What a response means: nothing to report where it acknowledges, else the
/// complaint that quotes its first line.
pub open spec fn response_verdict(response: Seq<char>) -> Result<(), Seq<char>> {
    if acknowledges(response) {
        Ok(())
    } else {
        Err("Unexpected response: "@ + first_line_of(response))
    }
}

/// The view of a verdict.
pub open spec fn verdict_of(r: Result<(), String>) -> Result<(), Seq<char>> {
    match r {
        Ok(()) => Ok(()),
        Err(e) => Err(e@),
    }
}

/// Builds the shutdown request.
pub fn shutdown_request(port: u16, token: &str) -> (request: String)
    ensures
        request@ == shutdown_request_text(port, token@),
{
    let mut out = to_chars("POST ");
    append(&mut out, &to_chars(SHUTDOWN_PATH));
    append(&mut out, &to_chars(" HTTP/1.1\r\nHost: 127.0.0.1:"));
    push_decimal(&mut out, port as u32);
    append(&mut out, &to_chars("\r\nCookie: "));
    append(&mut out, &to_chars("tbl_token="));
    append(&mut out, &to_chars(token));
    append(&mut out, &to_chars("\r\nContent-Length: 0\r\nConnection: close\r\n\r\n"));
    assert(out@ =~= shutdown_request_text(port, token@));
    from_chars(&out)
}

/// Whether a response shows that the server took the request.
pub fn shutdown_acknowledged(response: &str) -> (ok: bool)
    ensures
        ok == acknowledges(response@),
{
    let text = to_chars(response);
    contains(&text, &to_chars("200")) || contains(&text, &to_chars("shutting_down"))
}

/// The first line of `text`.
pub fn first_line(text: &str) -> (line: String)
    ensures
        line@ == first_line_of(text@),
{
    let chars = to_chars(text);
    let feed = find_char_from(&chars, '\n', 0);
    if feed < chars.len() {
        let end = if feed > 0 && chars[feed - 1] == '\r' {
            feed - 1
        } else {
            feed
        };
        let line = slice(&chars, 0, end);
        assert(line@ =~= first_line_of(text@));
        from_chars(&line)
    } else {
        from_chars(&chars)
    }
}

/// Reads the response to a shutdown request.
pub fn read_shutdown_response(response: &str) -> (verdict: Result<(), String>)
    ensures
        verdict_of(verdict) == response_verdict(response@),
{
    if shutdown_acknowledged(response) {
        Ok(())
    } else {
        let mut complaint = String::from_str("Unexpected response: ");
        let line = first_line(response);
        complaint.append(line.as_str());
        Err(complaint)
    }
}

// ---------------------------------------------------------------------------
// The course of the stop command
// ---------------------------------------------------------------------------

/// How often the port is looked at after the request was taken.
pub const MAX_POLLS: u32 = 50;

/// How long to pause before each look at the port, in milliseconds.
pub const POLL_INTERVAL_MS: u64 = 100;

/// How a stop command ended.
#[derive(Clone, Copy, Debug, PartialEq, Eq, Structural)]
pub enum StopOutcome {
    /// There is no run record.
    NotRunning,
    /// There was a run record, but nothing listens on its port; the record
    /// was removed.
    StaleRecordRemoved,
    /// The server took the request and its port was then seen closed.
    Stopped,
    /// The server took the request but its port still answers.
    StillRunning,
    /// The request could not be sent or was not acknowledged.
    Unreachable,
}

/// Where a stop command stands.
#[derive(Clone, Copy, Debug, PartialEq, Eq, Structural)]
pub enum StopState {
    /// The run record is to be loaded.
    Loading,
    /// The port of the record is to be probed.
    Checking,
    /// The stale record is to be removed.
    Clearing,
    /// The shutdown request is to be sent.
    Sending,
    /// The port is being watched; `polls` looks have found it open.
    Waiting { polls: u32 },
    /// The command is over.
    Finished(StopOutcome),
}

/// What the caller reports back.
#[derive(Clone, Copy, Debug, PartialEq, Eq, Structural)]
pub enum StopEvent {
    /// The run record was looked for.
    RecordLoaded { found: bool },
    /// The port was probed.
    PortProbed { open: bool },
    /// The run record was removed.
    RecordCleared,
    /// The request was sent; `acknowledged` says whether a response came
    /// that acknowledges it.
    RequestSent { acknowledged: bool },
}

/// What the caller does next.
#[derive(Clone, Copy, Debug, PartialEq, Eq, Structural)]
pub enum StopAction {
    LoadRecord,
    ProbePort,
    ClearRecord,
    SendRequest,
    /// Pause for the poll interval, then probe the port.
    PauseAndProbe,
    Report(StopOutcome),
}

impl StopState {
    /// Whether the state can arise: no more looks are counted than allowed.
    pub open spec fn wf(self) -> bool {
        self matches StopState::Waiting { polls } ==> polls < MAX_POLLS
    }

    /// What the caller does in this state.
    pub open spec fn action(self) -> StopAction {
        match self {
            StopState::Loading => StopAction::LoadRecord,
            StopState::Checking => StopAction::ProbePort,
            StopState::Clearing => StopAction::ClearRecord,
            StopState::Sending => StopAction::SendRequest,
            StopState::Waiting { .. } => StopAction::PauseAndProbe,
            StopState::Finished(outcome) => StopAction::Report(outcome),
        }
    }

    /// Whether `event` is the report that this state waits for.
    pub open spec fn expects(self, event: StopEvent) -> bool {
        match self {
            StopState::Loading => event is RecordLoaded,
            StopState::Checking => event is PortProbed,
            StopState::Clearing => event is RecordCleared,
            StopState::Sending => event is RequestSent,
            StopState::Waiting { .. } => event is PortProbed,
            StopState::Finished(_) => false,
        }
    }

    /// The state after `event`. A report that the state does not wait for
    /// changes nothing.
    pub open spec fn next(self, event: StopEvent) -> StopState {
        match (self, event) {
            (StopState::Loading, StopEvent::RecordLoaded { found }) => if found {
                StopState::Checking
            } else {
                StopState::Finished(StopOutcome::NotRunning)
            },
            (StopState::Checking, StopEvent::PortProbed { open }) => if open {
                StopState::Sending
            } else {
                StopState::Clearing
            },
            (StopState::Clearing, StopEvent::RecordCleared) => StopState::Finished(
                StopOutcome::StaleRecordRemoved,
            ),
            (StopState::Sending, StopEvent::RequestSent { acknowledged }) => if acknowledged {
                StopState::Waiting { polls: 0 }
            } else {
                StopState::Finished(StopOutcome::Unreachable)
            },
            (StopState::Waiting { polls }, StopEvent::PortProbed { open }) => if !open {
                StopState::Finished(StopOutcome::Stopped)
            } else if polls + 1 >= MAX_POLLS {
                StopState::Finished(StopOutcome::StillRunning)
            } else {
                StopState::Waiting { polls: (polls + 1) as u32 }
            },
            _ => self,
        }
    }

    /// An upper bound on the reports still to come.
    pub open spec fn budget(self) -> nat {
        match self {
            StopState::Loading => (MAX_POLLS + 3) as nat,
            StopState::Checking => (MAX_POLLS + 2) as nat,
            StopState::Sending => (MAX_POLLS + 1) as nat,
            StopState::Waiting { polls } => (MAX_POLLS - polls) as nat,
            StopState::Clearing => 1,
            StopState::Finished(_) => 0,
        }
    }

    /// The state in which every stop command begins.
    pub fn start() -> (state: StopState)
        ensures
            state == StopState::Loading,
            state.wf(),
    {
        StopState::Loading
    }

    /// What to do in this state.
    pub fn todo(&self) -> (action: StopAction)
        ensures
            action == self.action(),
    {
        match self {
            StopState::Loading => StopAction::LoadRecord,
            StopState::Checking => StopAction::ProbePort,
            StopState::Clearing => StopAction::ClearRecord,
            StopState::Sending => StopAction::SendRequest,
            StopState::Waiting { .. } => StopAction::PauseAndProbe,
            StopState::Finished(outcome) => StopAction::Report(*outcome),
        }
    }

    /// Takes the caller's report and moves on.
    pub fn step(self, event: StopEvent) -> (after: StopState)
        ensures
            after == self.next(event),
            self.wf() ==> after.wf(),
    {
        match self {
            StopState::Loading => match event {
                StopEvent::RecordLoaded { found } => if found {
                    StopState::Checking
                } else {
                    StopState::Finished(StopOutcome::NotRunning)
                },
                _ => self,
            },
            StopState::Checking => match event {
                StopEvent::PortProbed { open } => if open {
                    StopState::Sending
                } else {
                    StopState::Clearing
                },
                _ => self,
            },
            StopState::Clearing => match event {
                StopEvent::RecordCleared => StopState::Finished(StopOutcome::StaleRecordRemoved),
                _ => self,
            },
            StopState::Sending => match event {
                StopEvent::RequestSent { acknowledged } => if acknowledged {
                    StopState::Waiting { polls: 0 }
                } else {
                    StopState::Finished(StopOutcome::Unreachable)
                },
                _ => self,
            },
            StopState::Waiting { polls } => match event {
                StopEvent::PortProbed { open } => if !open {
                    StopState::Finished(StopOutcome::Stopped)
                } else if polls >= MAX_POLLS - 1 {
                    StopState::Finished(StopOutcome::StillRunning)
                } else {
                    StopState::Waiting { polls: polls + 1 }
                },
                _ => self,
            },
            StopState::Finished(_) => self,
        }
    }
}

/// The request opens the server that holds the secret it carries, unless
/// that server asks for basic authentication: the request carries none, so
/// such a server turns it away and must be stopped by other means.
pub proof fn lemma_request_is_let_in(guard: GuardView)
    requires
        cookie_safe(guard.secret),
    ensures
        !guard.basic_in_force() ==> guard.access(carried_by_request(guard.secret))
            == Access::Granted,
        guard.basic_in_force() ==> guard.access(carried_by_request(guard.secret))
            == Access::BasicAuthRequired,
{
    lemma_cookie_round_trip(guard.secret);
}

/// Every report that a state waits for brings the command nearer its end:
/// no stop command runs for ever, and the port is looked at fifty times at
/// most.
pub proof fn lemma_stop_progress(state: StopState, event: StopEvent)
    requires
        state.wf(),
        state.expects(event),
    ensures
        state.next(event).wf(),
        state.next(event).budget() < state.budget(),
{
}

/// Success is claimed only on seeing the port closed after the server took
/// the request; a port that still answers or a request that was not taken
/// never counts as stopped.
pub proof fn lemma_stopped_means_port_closed(state: StopState, event: StopEvent)
    requires
        state != StopState::Finished(StopOutcome::Stopped),
        state.next(event) == StopState::Finished(StopOutcome::Stopped),
    ensures
        state is Waiting,
        event == (StopEvent::PortProbed { open: false }),
{
}

/// A record whose port does not answer is removed before the command ends,
/// and no request is sent for it.
pub proof fn lemma_stale_record_is_cleared(state: StopState, event: StopEvent)
    requires
        state == StopState::Checking,
        event == (StopEvent::PortProbed { open: false }),
    ensures
        state.next(event).action() == StopAction::ClearRecord,
        state.next(event).next(StopEvent::RecordCleared) == StopState::Finished(
            StopOutcome::StaleRecordRemoved,
        ),
{
}

} // verus!
