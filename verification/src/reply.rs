//! What a handler answers: a status and a body, as plain values for the web
//! server to send.

use crate::fortune::{views, Fortune, FortuneView};
use vstd::prelude::*;

verus! {

/// The status of a reply that carries what was asked for.
pub const OK: u16 = 200;

/// The status for a request whose body could not be read.
pub const BAD_REQUEST: u16 = 400;

/// The status for an unknown route or an unknown fortune.
pub const NOT_FOUND: u16 = 404;

/// The status for a known route asked with the wrong method.
pub const METHOD_NOT_ALLOWED: u16 = 405;

/// The status for a failure that is not the client's.
pub const INTERNAL_SERVER_ERROR: u16 = 500;

/// What a body is, mathematically.
pub enum BodyView {
    Fortune(FortuneView),
    Fortunes(Seq<FortuneView>),
    JsonString(Seq<char>),
    Text(Seq<char>),
    Html(Seq<char>),
}

/// The body of a reply.
#[derive(Debug, PartialEq, Eq)]
pub enum Body {
    /// One fortune, to be sent as a JSON object with its id and message.
    Fortune(Fortune),
    /// Fortunes, to be sent as a JSON array of such objects.
    Fortunes(Vec<Fortune>),
    /// A text, to be sent as a JSON string.
    JsonString(String),
    /// A text, to be sent as it is.
    Text(String),
    /// A text, to be sent as an HTML page.
    Html(String),
}

impl View for Body {
    type V = BodyView;

    open spec fn view(&self) -> BodyView {
        match self {
            Body::Fortune(fortune) => BodyView::Fortune(fortune@),
            Body::Fortunes(fortunes) => BodyView::Fortunes(views(fortunes@)),
            Body::JsonString(text) => BodyView::JsonString(text@),
            Body::Text(text) => BodyView::Text(text@),
            Body::Html(text) => BodyView::Html(text@),
        }
    }
}

/// What a reply is, mathematically.
pub struct ReplyView {
    pub status: u16,
    pub body: BodyView,
}

/// A status and a body.
#[derive(Debug, PartialEq, Eq)]
pub struct Reply {
    pub status: u16,
    pub body: Body,
}

impl View for Reply {
    type V = ReplyView;

    open spec fn view(&self) -> ReplyView {
        ReplyView { status: self.status, body: self.body@ }
    }
}

/// Why the web server turned a request down before any handler saw it.
#[derive(Clone, Copy, Debug, PartialEq, Eq)]
pub enum Rejection {
    /// No route matches the path.
    NotFound,
    /// A route matches the path, but not with this method.
    MethodNotAllowed,
    /// The body of the request is not the JSON that the route expects.
    MalformedBody,
    /// Anything else.
    Other,
}

} // verus!
