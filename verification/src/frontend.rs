//! The front end's side: where it finds the back end, what it sends there,
//! and what it answers the browser for each way a call to the back end can
//! end.

use crate::decimal::{decimal, to_decimal};
use crate::fortune::{views, Fortune, FortuneView};
use crate::random::random_number;
use crate::reply::{
    Body, BodyView, Rejection, Reply, ReplyView, BAD_REQUEST, INTERNAL_SERVER_ERROR,
    METHOD_NOT_ALLOWED, NOT_FOUND, OK,
};
use std::collections::BTreeMap;
use vstd::prelude::*;
use vstd::string::*;

verus! {

/// The ids that the front end gives to new fortunes lie below this number.
pub const ID_LIMIT: u32 = 10000;

/// The template of the page that shows every fortune: one paragraph each,
/// with the id and the message.
pub const ALL_TEMPLATE: &'static str = "{{#each this}}\n    <p>{{id}}: {{message}}</p>\n{{/each}}";

/// How a call to the back end ended.
#[derive(Debug, PartialEq, Eq)]
pub enum Fetched<T> {
    /// The back end answered, and this is what it said.
    Value(T),
    /// The back end answered, but not with what was expected; the text says
    /// what was wrong.
    BadBody(String),
    /// The request failed; the text says why.
    NoAnswer(String),
}

/// The address of a path on the back end.
pub open spec fn backend_address(host: Seq<char>, port: Seq<char>, path: Seq<char>) -> Seq<char> {
    "http://"@ + host + ":"@ + port + path
}

fn backend_url(host: &str, port: &str, path: &str) -> (url: String)
    ensures
        url@ == backend_address(host@, port@, path@),
{
    let mut url = "http://".to_owned();
    url.append(host);
    url.append(":");
    url.append(port);
    url.append(path);
    url
}

/// Where the back end lists and takes fortunes.
pub fn fortunes_url(host: &str, port: &str) -> (url: String)
    ensures
        url@ == backend_address(host@, port@, "/fortunes"@),
{
    backend_url(host, port, "/fortunes")
}

/// Where the back end hands out a random fortune.
pub fn random_url(host: &str, port: &str) -> (url: String)
    ensures
        url@ == backend_address(host@, port@, "/fortunes/random"@),
{
    backend_url(host, port, "/fortunes/random")
}

fn explained(what: &str, why: &str) -> (text: String)
    ensures
        text@ == what@ + why@,
{
    let mut text = what.to_owned();
    text.append(why);
    text
}

/// A plain text answer.
pub open spec fn text_view(status: u16, text: Seq<char>) -> ReplyView {
    ReplyView { status, body: BodyView::Text(text) }
}

/// An answer that is an HTML page.
pub open spec fn html_view(status: u16, text: Seq<char>) -> ReplyView {
    ReplyView { status, body: BodyView::Html(text) }
}

/// The answer to a health check.
pub fn healthz() -> (reply: Reply)
    ensures
        reply@ == text_view(OK, "healthy"@),
{
    Reply { status: OK, body: Body::Text("healthy".to_owned()) }
}

/// The answer to a request for a random fortune.
pub open spec fn random_view(fetched: Fetched<Fortune>) -> ReplyView {
    match fetched {
        Fetched::Value(fortune) => text_view(OK, fortune@.message),
        Fetched::BadBody(why) => text_view(
            INTERNAL_SERVER_ERROR,
            "Error parsing response: "@ + why@,
        ),
        Fetched::NoAnswer(why) => text_view(INTERNAL_SERVER_ERROR, "Request failed: "@ + why@),
    }
}

/// The answer to a request for a random fortune: its message, or what went
/// wrong between the front end and the back end.
pub fn random_reply(fetched: Fetched<Fortune>) -> (reply: Reply)
    ensures
        reply@ == random_view(fetched),
{
    match fetched {
        Fetched::Value(fortune) => Reply { status: OK, body: Body::Text(fortune.message) },
        Fetched::BadBody(why) => Reply {
            status: INTERNAL_SERVER_ERROR,
            body: Body::Text(explained("Error parsing response: ", why.as_str())),
        },
        Fetched::NoAnswer(why) => Reply {
            status: INTERNAL_SERVER_ERROR,
            body: Body::Text(explained("Request failed: ", why.as_str())),
        },
    }
}

/// The id and the message of each fortune, in order.
pub open spec fn rows(fortunes: Seq<FortuneView>) -> Seq<(Seq<char>, Seq<char>)> {
    fortunes.map_values(|f: FortuneView| (f.id, f.message))
}

/// What the template engine makes of a template and a list of rows, each an
/// object with the fields `id` and `message`: the rendered text, or the text
/// of its error.
pub uninterp spec fn rendered_template(template: Seq<char>, rows: Seq<(Seq<char>, Seq<char>)>)
    -> Result<Seq<char>, Seq<char>>;

/// The model of a rendering.
pub open spec fn page_view(page: Result<String, String>) -> Result<Seq<char>, Seq<char>> {
    match page {
        Ok(text) => Ok(text@),
        Err(why) => Err(why@),
    }
}

/// Renders `template` over the fortunes with
/// `handlebars::Handlebars::new().render_template(..)`, each fortune handed
/// over as an object with the fields `id` and `message`. Believed of that
/// call, and not proved: with a registry fresh from `new`, what comes back,
/// text or error, depends on the template and the rows alone. The contract
/// gives that result its name and claims nothing of what it holds. Only the
/// template of the page of all fortunes is admitted: of an arbitrary
/// template, such as one with a partial that includes itself, it is not
/// known that the engine returns at all.
#[verifier::external_body]
fn render_template(template: &str, fortunes: &Vec<Fortune>) -> (page: Result<String, String>)
    requires
        template@ == ALL_TEMPLATE@,
    ensures
        page_view(page) == rendered_template(template@, rows(views(fortunes@))),
{
    let data: Vec<BTreeMap<&str, &str>> = fortunes.iter().map(
        |f| BTreeMap::from([("id", f.id.as_str()), ("message", f.message.as_str())]),
    ).collect();
    handlebars::Handlebars::new().render_template(template, &data).map_err(|e| e.to_string())
}

/// The page of all fortunes, as the template engine renders it.
pub fn render_all(fortunes: &Vec<Fortune>) -> (page: Result<String, String>)
    ensures
        page_view(page) == rendered_template(ALL_TEMPLATE@, rows(views(fortunes@))),
{
    render_template(ALL_TEMPLATE, fortunes)
}

/// The answer that carries a rendering of the page of all fortunes.
pub open spec fn all_page_view(page: Result<Seq<char>, Seq<char>>) -> ReplyView {
    match page {
        Ok(text) => html_view(OK, text),
        Err(why) => html_view(INTERNAL_SERVER_ERROR, "Template error: "@ + why),
    }
}

/// The answer for a rendering of the page of all fortunes: the page, or why
/// there is none.
pub fn all_page(page: Result<String, String>) -> (reply: Reply)
    ensures
        reply@ == all_page_view(page_view(page)),
{
    match page {
        Ok(text) => Reply { status: OK, body: Body::Html(text) },
        Err(why) => Reply {
            status: INTERNAL_SERVER_ERROR,
            body: Body::Html(explained("Template error: ", why.as_str())),
        },
    }
}

/// The answer to a request for all fortunes.
pub open spec fn all_view(fetched: Fetched<Vec<Fortune>>) -> ReplyView {
    match fetched {
        Fetched::Value(fortunes) => all_page_view(
            rendered_template(ALL_TEMPLATE@, rows(views(fortunes@))),
        ),
        Fetched::BadBody(why) => html_view(
            INTERNAL_SERVER_ERROR,
            "Error parsing response: "@ + why@,
        ),
        Fetched::NoAnswer(why) => html_view(INTERNAL_SERVER_ERROR, "Request failed: "@ + why@),
    }
}

/// The answer to a request for all fortunes: the rendered page, or what went
/// wrong on the way to it.
pub fn all_reply(fetched: Fetched<Vec<Fortune>>) -> (reply: Reply)
    ensures
        reply@ == all_view(fetched),
{
    match fetched {
        Fetched::Value(fortunes) => all_page(render_all(&fortunes)),
        Fetched::BadBody(why) => Reply {
            status: INTERNAL_SERVER_ERROR,
            body: Body::Html(explained("Error parsing response: ", why.as_str())),
        },
        Fetched::NoAnswer(why) => Reply {
            status: INTERNAL_SERVER_ERROR,
            body: Body::Html(explained("Request failed: ", why.as_str())),
        },
    }
}

/// The fortune that the front end sends for a new message when it has drawn
/// `number`: its id is the number reduced below the id limit, in decimal.
pub fn numbered_fortune(number: u32, message: String) -> (fortune: Fortune)
    ensures
        fortune@.id == decimal((number % ID_LIMIT) as nat),
        fortune@.message == message@,
{
    Fortune { id: to_decimal(number % ID_LIMIT), message }
}

/// The fortune that the front end sends for a new message: the message under
/// an id drawn at random below the id limit.
pub fn new_fortune(message: String) -> (fortune: Fortune)
    ensures
        exists|id: nat| id < ID_LIMIT && fortune@.id == #[trigger] decimal(id),
        fortune@.message == message@,
{
    let number = random_number();
    assert((number % ID_LIMIT) < ID_LIMIT);
    numbered_fortune(number, message)
}

/// The answer to a request to add a fortune.
pub open spec fn add_view(sent: Result<(), String>) -> ReplyView {
    match sent {
        Ok(_) => text_view(OK, "Cookie added!"@),
        Err(why) => text_view(INTERNAL_SERVER_ERROR, "Request failed: "@ + why@),
    }
}

/// The answer to a request to add a fortune, given how sending it to the
/// back end went.
pub fn add_reply(sent: Result<(), String>) -> (reply: Reply)
    ensures
        reply@ == add_view(sent),
{
    match sent {
        Ok(_) => Reply { status: OK, body: Body::Text("Cookie added!".to_owned()) },
        Err(why) => Reply {
            status: INTERNAL_SERVER_ERROR,
            body: Body::Text(explained("Request failed: ", why.as_str())),
        },
    }
}

/// The answer to a request that no handler took.
pub open spec fn rejection_view(rejection: Rejection) -> ReplyView {
    match rejection {
        Rejection::NotFound => text_view(NOT_FOUND, "Not Found"@),
        Rejection::MalformedBody => text_view(BAD_REQUEST, "Invalid JSON"@),
        Rejection::MethodNotAllowed => text_view(METHOD_NOT_ALLOWED, "Method Not Allowed"@),
        Rejection::Other => text_view(INTERNAL_SERVER_ERROR, "Internal Server Error"@),
    }
}

/// The answer to a request that no handler took: an unknown route is not
/// found, a known route asked with the wrong method is not allowed, a body
/// that is not the expected JSON is a bad request, and anything else counts
/// as a failure of the server.
pub fn handle_rejection(rejection: Rejection) -> (reply: Reply)
    ensures
        reply@ == rejection_view(rejection),
{
    match rejection {
        Rejection::NotFound => Reply { status: NOT_FOUND, body: Body::Text("Not Found".to_owned()) },
        Rejection::MalformedBody => Reply {
            status: BAD_REQUEST,
            body: Body::Text("Invalid JSON".to_owned()),
        },
        Rejection::MethodNotAllowed => Reply {
            status: METHOD_NOT_ALLOWED,
            body: Body::Text("Method Not Allowed".to_owned()),
        },
        Rejection::Other => Reply {
            status: INTERNAL_SERVER_ERROR,
            body: Body::Text("Internal Server Error".to_owned()),
        },
    }
}

} // verus!
