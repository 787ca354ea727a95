//! What each endpoint answers.
//!
//! `GET /` is open, `GET /bootstrap` is guarded by the secret in the query,
//! `GET /api/ping` and `POST /api/shutdown` stand behind both gates, and
//! `POST /setup` runs the first-time setup step by step.

use vstd::prelude::*;
use vstd::string::StringExecFns;
use crate::gate::{Access, Guard, GuardView, Presented, PresentedView};
use crate::pages::{
    bootstrap_page_html, clone_failed_page, git_required_page, setup_page_html, tbl_js,
    BOOTSTRAP_HEAD, BOOTSTRAP_TAIL, CLONE_FAILED_HEAD, CLONE_FAILED_TAIL, GIT_REQUIRED_HEAD,
    GIT_REQUIRED_TAIL, SETUP_PAGE, TBL_JS,
};
use crate::reply::{
    body_reply, challenge_reply, html_reply, json_reply, redirect_reply, text_reply, Content,
    Reply, ReplyView,
};
use crate::routes::{ROOT_PATH, WEB_INDEX};
use crate::shutdown::ShutdownLatch;
use crate::text::{from_chars, same_secret, str_of, text_of, to_chars, trim, trim_chars};

verus! {

// ---------------------------------------------------------------------------
// The root path
// ---------------------------------------------------------------------------

/// The answer to `GET /`: where the served application has an index page, a
/// temporary redirect to it; else the first-run page.
pub open spec fn index_reply(has_index: bool) -> ReplyView {
    if has_index {
        redirect_reply(307, WEB_INDEX@)
    } else {
        html_reply(200, SETUP_PAGE@)
    }
}

/// Answers `GET /`. No secret is asked for.
pub fn index_handler(has_index: bool) -> (reply: Reply)
    ensures
        reply@ == index_reply(has_index),
{
    if has_index {
        Reply::redirect(307, WEB_INDEX)
    } else {
        Reply::with_body(200, Content::Html, setup_page_html())
    }
}

// ---------------------------------------------------------------------------
// The bootstrap handshake
// ---------------------------------------------------------------------------

/// How a bootstrap request fares.
#[derive(Clone, Copy, Debug, PartialEq, Eq, Structural)]
pub enum Bootstrap {
    /// The query carries no token.
    MissingToken,
    /// The token is not the secret of this run.
    InvalidToken,
    /// The token is the secret of this run.
    Accepted,
}

/// How a bootstrap request with the given query token fares against the
/// secret: only the very secret is accepted.
pub open spec fn bootstrap_outcome(query_token: Option<Seq<char>>, secret: Seq<char>) -> Bootstrap {
    match query_token {
        None => Bootstrap::MissingToken,
        Some(token) => if token == secret {
            Bootstrap::Accepted
        } else {
            Bootstrap::InvalidToken
        },
    }
}

/// The answer to a bootstrap request.
pub open spec fn bootstrap_reply(query_token: Option<Seq<char>>, secret: Seq<char>) -> ReplyView {
    match bootstrap_outcome(query_token, secret) {
        Bootstrap::MissingToken => text_reply(400, "missing token in query"@),
        Bootstrap::InvalidToken => text_reply(403, "invalid bootstrap token"@),
        Bootstrap::Accepted => html_reply(200, BOOTSTRAP_HEAD@ + secret + BOOTSTRAP_TAIL@),
    }
}

/// Judges the token of a bootstrap request.
pub fn check_bootstrap(query_token: Option<&str>, secret: &str) -> (outcome: Bootstrap)
    ensures
        outcome == bootstrap_outcome(str_of(query_token), secret@),
        outcome == Bootstrap::Accepted <==> str_of(query_token) == Some(secret@),
{
    match query_token {
        None => Bootstrap::MissingToken,
        Some(token) => {
            if same_secret(token, secret) {
                Bootstrap::Accepted
            } else {
                Bootstrap::InvalidToken
            }
        },
    }
}

/// Answers `GET /bootstrap`: without a token a bad request, with a wrong
/// token forbidden, with the secret the page that sets the cookie.
pub fn bootstrap_handler(query_token: Option<&str>, secret: &str) -> (reply: Reply)
    ensures
        reply@ == bootstrap_reply(str_of(query_token), secret@),
        reply@.status == 200 <==> str_of(query_token) == Some(secret@),
{
    match check_bootstrap(query_token, secret) {
        Bootstrap::MissingToken => Reply::text(400, "missing token in query"),
        Bootstrap::InvalidToken => Reply::text(403, "invalid bootstrap token"),
        Bootstrap::Accepted => Reply::with_body(200, Content::Html, bootstrap_page_html(secret)),
    }
}

/// A bootstrap request with any token but the secret of this run is
/// forbidden. What the token looks like plays no part, so the secret of an
/// earlier run opens nothing.
pub proof fn lemma_bootstrap_rejects_other_tokens(token: Seq<char>, secret: Seq<char>)
    requires
        token != secret,
    ensures
        bootstrap_outcome(Some(token), secret) == Bootstrap::InvalidToken,
        bootstrap_reply(Some(token), secret) == text_reply(403, "invalid bootstrap token"@),
        bootstrap_outcome(Some(secret), secret) == Bootstrap::Accepted,
{
}

// ---------------------------------------------------------------------------
// Privileged endpoints
// ---------------------------------------------------------------------------

/// The answer to a request that was refused; `None` where it was let in.
pub open spec fn refusal(access: Access) -> Option<ReplyView> {
    match access {
        Access::Granted => None,
        Access::BasicAuthRequired => Some(challenge_reply("basic auth required"@)),
        Access::CookieRejected => Some(text_reply(401, "missing or invalid auth cookie"@)),
    }
}

/// The view of an optional reply.
pub open spec fn reply_of(r: Option<Reply>) -> Option<ReplyView> {
    match r {
        Some(reply) => Some(reply@),
        None => None,
    }
}

/// The reply that turns a refused request away.
pub fn refuse(access: Access) -> (reply: Option<Reply>)
    ensures
        reply_of(reply) == refusal(access),
{
    match access {
        Access::Granted => None,
        Access::BasicAuthRequired => Some(Reply::challenge("basic auth required")),
        Access::CookieRejected => Some(Reply::text(401, "missing or invalid auth cookie")),
    }
}

/// The answer to `GET /api/ping`.
pub open spec fn ping_reply(guard: GuardView, request: PresentedView) -> ReplyView {
    match refusal(guard.access(request)) {
        Some(reply) => reply,
        None => json_reply("{\"status\":\"ok\"}"@),
    }
}

/// Answers `GET /api/ping`, the health check behind both gates.
pub fn ping_handler(guard: &Guard, request: &Presented<'_>) -> (reply: Reply)
    ensures
        reply@ == ping_reply(guard@, request@),
        reply@.status == 200 <==> guard@.access(request@) == Access::Granted,
{
    match refuse(guard.authorize(request)) {
        Some(reply) => reply,
        None => Reply::with_body(200, Content::Json, String::from_str("{\"status\":\"ok\"}")),
    }
}

/// A request is answered with status 200 exactly when it is let in; every
/// refusal is an authorization error, status 401. A request without a
/// cookie is never let in.
pub proof fn lemma_refusals_are_unauthorized(guard: GuardView, request: PresentedView)
    ensures
        ping_reply(guard, request).status == 200 <==> guard.access(request) == Access::Granted,
        guard.access(request) != Access::Granted ==> ping_reply(guard, request).status == 401,
        request.cookie is None ==> ping_reply(guard, request).status == 401,
{
}

/// The answer to `POST /api/shutdown`.
pub open spec fn shutdown_reply(guard: GuardView, request: PresentedView) -> ReplyView {
    match refusal(guard.access(request)) {
        Some(reply) => reply,
        None => json_reply("{\"status\":\"shutting_down\"}"@),
    }
}

/// What a shutdown request does to the latch: whether the signal is to be
/// delivered now, and whether the latch is armed afterwards.
pub open spec fn shutdown_effect(access: Access, armed: bool) -> (bool, bool) {
    if access == Access::Granted {
        (armed, false)
    } else {
        (false, armed)
    }
}

/// Answers `POST /api/shutdown`. A request that is let in takes the
/// latch; the signal is to be delivered only where the latch was still
/// armed. A refused request leaves the latch alone.
pub fn shutdown_handler(
    guard: &Guard,
    request: &Presented<'_>,
    latch: &mut ShutdownLatch,
) -> (r: (Reply, bool))
    ensures
        r.0@ == shutdown_reply(guard@, request@),
        (r.1, final(latch).is_armed()) == shutdown_effect(
            guard@.access(request@),
            old(latch).is_armed(),
        ),
{
    match refuse(guard.authorize(request)) {
        Some(reply) => (reply, false),
        None => {
            let deliver = latch.take();
            (
                Reply::with_body(
                    200,
                    Content::Json,
                    String::from_str("{\"status\":\"shutting_down\"}"),
                ),
                deliver,
            )
        },
    }
}

/// A shutdown request that is let in leaves the latch spent, and after it
/// no request delivers the signal again: a second shutdown is a no-op.
pub proof fn lemma_shutdown_once(first: Access, second: Access, armed: bool)
    requires
        first == Access::Granted,
    ensures
        shutdown_effect(first, armed) == (armed, false),
        shutdown_effect(second, shutdown_effect(first, armed).1) == (false, false),
{
}

/// The answer to `GET /tbl.js`.
pub fn tbl_js_handler() -> (reply: Reply)
    ensures
        reply@ == body_reply(200, Content::JavaScript, TBL_JS@),
{
    Reply::with_body(200, Content::JavaScript, tbl_js())
}

// ---------------------------------------------------------------------------
// First-time setup
// ---------------------------------------------------------------------------

/// A step of the setup that the caller carries out.
#[derive(Clone, Copy, Debug, PartialEq, Eq, Structural)]
pub enum SetupStage {
    /// See that git can be run.
    CheckGit,
    /// Clone or update the repository.
    SyncRepo,
    /// Store the configuration with the new git URL.
    SaveConfig,
}

/// What comes next in the setup.
#[derive(Clone, Debug, PartialEq, Eq)]
pub enum SetupNext {
    /// Carry out this stage and report back.
    Continue(SetupStage),
    /// The setup is over: answer with this reply.
    Finish(Reply),
}

/// `SetupNext` as a mathematical value.
pub enum SetupNextView {
    Continue(SetupStage),
    Finish(ReplyView),
}

impl View for SetupNext {
    type V = SetupNextView;

    open spec fn view(&self) -> SetupNextView {
        match self {
            SetupNext::Continue(stage) => SetupNextView::Continue(*stage),
            SetupNext::Finish(reply) => SetupNextView::Finish(reply@),
        }
    }
}

/// The git URL of a setup form: the field without surrounding white space,
/// `None` where nothing is left.
pub open spec fn setup_url_of(field: Seq<char>) -> Option<Seq<char>> {
    if trim(field).len() == 0 {
        None
    } else {
        Some(trim(field))
    }
}

/// How the setup begins for the given form field: with the URL in hand, the
/// check for git; without one, a bad request.
pub open spec fn setup_begin_spec(field: Seq<char>) -> (Option<Seq<char>>, SetupNextView) {
    match setup_url_of(field) {
        Some(url) => (Some(url), SetupNextView::Continue(SetupStage::CheckGit)),
        None => (None, SetupNextView::Finish(html_reply(400, "<h1>Missing git URL</h1>"@))),
    }
}

/// What follows a stage that ended with the given failure, or without one.
/// A missing git and a failed clone end the setup with a page that shows the
/// diagnostic. A configuration that could not be stored does not: the setup
/// goes on to the redirect.
pub open spec fn setup_after_spec(stage: SetupStage, failure: Option<Seq<char>>) -> SetupNextView {
    match stage {
        SetupStage::CheckGit => match failure {
            Some(e) => SetupNextView::Finish(
                html_reply(500, GIT_REQUIRED_HEAD@ + e + GIT_REQUIRED_TAIL@),
            ),
            None => SetupNextView::Continue(SetupStage::SyncRepo),
        },
        SetupStage::SyncRepo => match failure {
            Some(e) => SetupNextView::Finish(
                html_reply(500, CLONE_FAILED_HEAD@ + e + CLONE_FAILED_TAIL@),
            ),
            None => SetupNextView::Continue(SetupStage::SaveConfig),
        },
        SetupStage::SaveConfig => SetupNextView::Finish(redirect_reply(303, ROOT_PATH@)),
    }
}

/// Begins the setup for the `git_url` field of the form. Returns the URL to
/// set up, if the field holds one, and what to do next.
pub fn setup_handler(git_url_field: &str) -> (r: (Option<String>, SetupNext))
    ensures
        (text_of(r.0), r.1@) == setup_begin_spec(git_url_field@),
{
    let field = to_chars(git_url_field);
    let url = trim_chars(&field);
    if url.len() == 0 {
        (
            None,
            SetupNext::Finish(
                Reply::with_body(400, Content::Html, String::from_str("<h1>Missing git URL</h1>")),
            ),
        )
    } else {
        (Some(from_chars(&url)), SetupNext::Continue(SetupStage::CheckGit))
    }
}

/// Goes on with the setup after `stage` was carried out; `failure` is the
/// diagnostic where the stage failed.
pub fn setup_after(stage: SetupStage, failure: Option<&str>) -> (next: SetupNext)
    ensures
        next@ == setup_after_spec(stage, str_of(failure)),
{
    match stage {
        SetupStage::CheckGit => match failure {
            Some(e) => SetupNext::Finish(
                Reply::with_body(500, Content::Html, git_required_page(e)),
            ),
            None => SetupNext::Continue(SetupStage::SyncRepo),
        },
        SetupStage::SyncRepo => match failure {
            Some(e) => SetupNext::Finish(
                Reply::with_body(500, Content::Html, clone_failed_page(e)),
            ),
            None => SetupNext::Continue(SetupStage::SaveConfig),
        },
        SetupStage::SaveConfig => SetupNext::Finish(Reply::redirect(303, ROOT_PATH)),
    }
}

} // verus!
