//! What a handler answers, as plain data. The HTTP layer turns a `Reply`
//! into a response of its own kind.

use vstd::prelude::*;
use vstd::string::StringExecFns;

verus! {

/// The kind of content in the body of a reply.
#[derive(Clone, Copy, Debug, PartialEq, Eq, Structural)]
pub enum Content {
    /// No body.
    Empty,
    /// Plain text.
    Text,
    /// An HTML page.
    Html,
    /// A JSON document.
    Json,
    /// A script.
    JavaScript,
}

/// One reply.
#[derive(Clone, Debug, PartialEq, Eq)]
pub struct Reply {
    /// The status code.
    pub status: u16,
    /// The kind of content.
    pub content: Content,
    /// Where a redirect leads.
    pub location: Option<String>,
    /// Whether the reply asks for basic authentication in realm `tbl`.
    pub challenge: bool,
    /// The body.
    pub body: String,
}

/// A reply as a mathematical value.
pub struct ReplyView {
    pub status: u16,
    pub content: Content,
    pub location: Option<Seq<char>>,
    pub challenge: bool,
    pub body: Seq<char>,
}

impl View for Reply {
    type V = ReplyView;

    open spec fn view(&self) -> ReplyView {
        ReplyView {
            status: self.status,
            content: self.content,
            location: match self.location {
                Some(l) => Some(l@),
                None => None,
            },
            challenge: self.challenge,
            body: self.body@,
        }
    }
}

/// A body of the given kind under the given status.
pub open spec fn body_reply(status: u16, content: Content, body: Seq<char>) -> ReplyView {
    ReplyView { status, content, location: None, challenge: false, body }
}

/// A plain-text reply.
pub open spec fn text_reply(status: u16, body: Seq<char>) -> ReplyView {
    body_reply(status, Content::Text, body)
}

/// An HTML reply.
pub open spec fn html_reply(status: u16, body: Seq<char>) -> ReplyView {
    body_reply(status, Content::Html, body)
}

/// A JSON reply with status 200.
pub open spec fn json_reply(body: Seq<char>) -> ReplyView {
    body_reply(200, Content::Json, body)
}

/// A redirect to `location`.
pub open spec fn redirect_reply(status: u16, location: Seq<char>) -> ReplyView {
    ReplyView {
        status,
        content: Content::Empty,
        location: Some(location),
        challenge: false,
        body: Seq::<char>::empty(),
    }
}

/// The reply that asks for basic authentication.
pub open spec fn challenge_reply(body: Seq<char>) -> ReplyView {
    ReplyView { status: 401, content: Content::Text, location: None, challenge: true, body }
}

impl Reply {
    /// A body of the given kind under the given status.
    pub fn with_body(status: u16, content: Content, body: String) -> (r: Reply)
        ensures
            r@ == body_reply(status, content, body@),
    {
        Reply { status, content, location: None, challenge: false, body }
    }

    /// A plain-text reply.
    pub fn text(status: u16, body: &str) -> (r: Reply)
        ensures
            r@ == text_reply(status, body@),
    {
        Reply::with_body(status, Content::Text, String::from_str(body))
    }

    /// A redirect to `location`.
    pub fn redirect(status: u16, location: &str) -> (r: Reply)
        ensures
            r@ == redirect_reply(status, location@),
    {
        Reply {
            status,
            content: Content::Empty,
            location: Some(String::from_str(location)),
            challenge: false,
            body: String::new(),
        }
    }

    /// The reply that asks for basic authentication.
    pub fn challenge(body: &str) -> (r: Reply)
        ensures
            r@ == challenge_reply(body@),
    {
        Reply {
            status: 401,
            content: Content::Text,
            location: None,
            challenge: true,
            body: String::from_str(body),
        }
    }
}

} // verus!
