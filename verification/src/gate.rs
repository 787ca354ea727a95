//! Who may call a privileged endpoint.
//!
//! Two gates stand before every privileged endpoint. Where a user name and a
//! password are configured, basic authentication is checked first. Then the
//! session cookie must carry the secret of this run. Both must pass.

use vstd::prelude::*;
use crate::basic::{basic_auth_accepted, check_basic_auth};
use crate::cookie::{
    cookie_header_for, cookie_safe, extract_token_from_cookie, lemma_cookie_round_trip,
    presented_token,
};
use crate::text::{same_secret, str_of, text_of};

verus! {

/// What the server holds a request against.
pub struct Guard {
    /// The session secret of this run.
    pub secret: String,
    /// The user name for basic authentication, if one is configured.
    pub basic_user: Option<String>,
    /// The password for basic authentication, if one is configured.
    pub basic_pass: Option<String>,
}

/// What a request carries.
pub struct Presented<'a> {
    /// The `Authorization` header.
    pub authorization: Option<&'a str>,
    /// The `Cookie` header.
    pub cookie: Option<&'a str>,
}

/// A guard as a mathematical value.
pub struct GuardView {
    pub secret: Seq<char>,
    pub basic_user: Option<Seq<char>>,
    pub basic_pass: Option<Seq<char>>,
}

/// What a request carries, as a mathematical value.
pub struct PresentedView {
    pub authorization: Option<Seq<char>>,
    pub cookie: Option<Seq<char>>,
}

impl View for Guard {
    type V = GuardView;

    open spec fn view(&self) -> GuardView {
        GuardView {
            secret: self.secret@,
            basic_user: text_of(self.basic_user),
            basic_pass: text_of(self.basic_pass),
        }
    }
}

impl<'a> View for Presented<'a> {
    type V = PresentedView;

    open spec fn view(&self) -> PresentedView {
        PresentedView { authorization: str_of(self.authorization), cookie: str_of(self.cookie) }
    }
}

/// The judgement on a request.
#[derive(Clone, Copy, Debug, PartialEq, Eq, Structural)]
pub enum Access {
    /// Both gates passed.
    Granted,
    /// Basic authentication is configured and the request did not pass it.
    BasicAuthRequired,
    /// The session cookie is missing or does not carry the secret.
    CookieRejected,
}

impl GuardView {
    /// Whether basic authentication is in force: only where both a user
    /// name and a password are configured.
    pub open spec fn basic_in_force(self) -> bool {
        self.basic_user is Some && self.basic_pass is Some
    }

    /// Whether the request passes the basic-authentication gate.
    pub open spec fn passes_basic(self, request: PresentedView) -> bool {
        self.basic_in_force() ==> basic_auth_accepted(
            request.authorization,
            self.basic_user->0,
            self.basic_pass->0,
        )
    }

    /// Whether the request passes the cookie gate.
    pub open spec fn passes_cookie(self, request: PresentedView) -> bool {
        presented_token(request.cookie) == Some(self.secret)
    }

    /// The judgement on a request: basic authentication is looked at first.
    pub open spec fn access(self, request: PresentedView) -> Access {
        if !self.passes_basic(request) {
            Access::BasicAuthRequired
        } else if !self.passes_cookie(request) {
            Access::CookieRejected
        } else {
            Access::Granted
        }
    }
}

impl Guard {
    /// Judges a request.
    pub fn authorize(&self, request: &Presented<'_>) -> (access: Access)
        ensures
            access == self@.access(request@),
    {
        match (&self.basic_user, &self.basic_pass) {
            (Some(user), Some(pass)) => {
                if !check_basic_auth(request.authorization, user.as_str(), pass.as_str()) {
                    return Access::BasicAuthRequired;
                }
            },
            _ => {},
        }
        match extract_token_from_cookie(request.cookie) {
            Some(token) => {
                if same_secret(token.as_str(), self.secret.as_str()) {
                    Access::Granted
                } else {
                    Access::CookieRejected
                }
            },
            None => Access::CookieRejected,
        }
    }
}

/// Access is granted exactly when both gates pass.
pub proof fn lemma_both_gates(guard: GuardView, request: PresentedView)
    ensures
        guard.access(request) == Access::Granted <==> guard.passes_basic(request)
            && guard.passes_cookie(request),
        guard.passes_basic(request) && !guard.passes_cookie(request) ==> guard.access(request)
            == Access::CookieRejected,
        !guard.passes_basic(request) ==> guard.access(request) == Access::BasicAuthRequired,
{
}

/// With basic authentication in force, the right credentials without the
/// cookie are refused, the right cookie with wrong credentials is refused,
/// and only both together are let in.
pub proof fn lemma_basic_auth_and_cookie(
    guard: GuardView,
    authorization: Option<Seq<char>>,
    cookie: Option<Seq<char>>,
)
    requires
        guard.basic_in_force(),
    ensures
        ({
            let request = PresentedView { authorization, cookie };
            let basic_ok = basic_auth_accepted(
                authorization,
                guard.basic_user->0,
                guard.basic_pass->0,
            );
            let cookie_ok = presented_token(cookie) == Some(guard.secret);
            &&& basic_ok && cookie is None ==> guard.access(request) == Access::CookieRejected
            &&& cookie_ok && !basic_ok ==> guard.access(request) == Access::BasicAuthRequired
            &&& basic_ok && cookie_ok ==> guard.access(request) == Access::Granted
            &&& guard.access(request) == Access::Granted ==> basic_ok && cookie_ok
        }),
{
}

/// Without basic authentication, a request that carries only the cookie set
/// to the secret is let in, and a request without a cookie is refused.
pub proof fn lemma_cookie_session(guard: GuardView)
    requires
        !guard.basic_in_force(),
        cookie_safe(guard.secret),
    ensures
        guard.access(
            PresentedView { authorization: None, cookie: Some(cookie_header_for(guard.secret)) },
        ) == Access::Granted,
        guard.access(PresentedView { authorization: None, cookie: None })
            == Access::CookieRejected,
{
    lemma_cookie_round_trip(guard.secret);
}

/// A cookie that carries anything but the secret of this run is refused,
/// whatever else the request holds.
pub proof fn lemma_other_secret_refused(
    guard: GuardView,
    other: Seq<char>,
    authorization: Option<Seq<char>>,
)
    requires
        cookie_safe(other),
        other != guard.secret,
    ensures
        guard.access(PresentedView { authorization, cookie: Some(cookie_header_for(other)) })
            != Access::Granted,
{
    lemma_cookie_round_trip(other);
}

} // verus!
