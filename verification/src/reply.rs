//! What the server sends back: a status, the kind of body, and the body.

use vstd::prelude::*;

verus! {

/// Status of a reply that carries the page.
pub const OK: u16 = 200;

/// Status of a reply to a path that no route matches.
pub const NOT_FOUND: u16 = 404;

/// Status of a reply to a method that the matched route does not accept.
pub const METHOD_NOT_ALLOWED: u16 = 405;

/// Status of a reply that reports a failed rendering.
pub const INTERNAL_SERVER_ERROR: u16 = 500;

/// The kind of body a reply carries, which decides its content type.
#[derive(Clone, Copy, Debug, PartialEq, Eq, Structural)]
pub enum Media {
    /// An HTML document, sent as `text/html`.
    Html,
    /// Plain text, sent as `text/plain`.
    Text,
    /// No body, and no content type.
    Empty,
}

/// A reply, before the transport turns it into an HTTP response.
#[derive(Clone, Debug, PartialEq, Eq)]
pub struct Reply {
    /// The HTTP status code.
    pub status: u16,
    /// The kind of body.
    pub media: Media,
    /// The value of the `Allow` header, where the reply has one.
    pub allow: Option<String>,
    /// The body.
    pub body: String,
}

/// A [`Reply`] as contracts see it.
pub struct ReplyView {
    pub status: u16,
    pub media: Media,
    pub allow: Option<Seq<char>>,
    pub body: Seq<char>,
}

impl View for Reply {
    type V = ReplyView;

    open spec fn view(&self) -> ReplyView {
        ReplyView {
            status: self.status,
            media: self.media,
            allow: match self.allow {
                Some(methods) => Some(methods@),
                None => None,
            },
            body: self.body@,
        }
    }
}

/// What the body of a reply to a failed rendering begins with.
pub open spec fn failure_prefix() -> Seq<char> {
    "Failed to render template. Error: "@
}

/// The methods that a route accepts, as the `Allow` header lists them.
pub open spec fn accepted_methods() -> Seq<char> {
    "GET,HEAD"@
}

/// The reply that carries the rendered page: status 200, the document as it
/// was rendered.
pub open spec fn page_view(html: Seq<char>) -> ReplyView {
    ReplyView { status: 200, media: Media::Html, allow: None, body: html }
}

/// The reply to a rendering that failed with `message`: status 500, and a
/// plain text that names the failure.
pub open spec fn failure_view(message: Seq<char>) -> ReplyView {
    ReplyView { status: 500, media: Media::Text, allow: None, body: failure_prefix() + message }
}

/// The reply to a path that no route matches: status 404, no body.
pub open spec fn not_found_view() -> ReplyView {
    ReplyView { status: 404, media: Media::Empty, allow: None, body: Seq::empty() }
}

/// The reply to a method that the matched route does not accept: status 405,
/// the accepted methods in `Allow`, no body.
pub open spec fn method_not_allowed_view() -> ReplyView {
    ReplyView {
        status: 405,
        media: Media::Empty,
        allow: Some(accepted_methods()),
        body: Seq::empty(),
    }
}

impl Reply {
    /// The reply that carries the rendered page.
    pub fn page(html: String) -> (reply: Reply)
        ensures
            reply@ == page_view(html@),
    {
        Reply { status: OK, media: Media::Html, allow: None, body: html }
    }

    /// The reply to a rendering that failed with `message`.
    pub fn failure(message: &str) -> (reply: Reply)
        ensures
            reply@ == failure_view(message@),
    {
        let mut body = String::from_str("Failed to render template. Error: ");
        body.append(message);
        Reply { status: INTERNAL_SERVER_ERROR, media: Media::Text, allow: None, body }
    }

    /// The reply to a path that no route matches.
    pub fn not_found() -> (reply: Reply)
        ensures
            reply@ == not_found_view(),
    {
        Reply { status: NOT_FOUND, media: Media::Empty, allow: None, body: String::new() }
    }

    /// The reply to a method that the matched route does not accept.
    pub fn method_not_allowed() -> (reply: Reply)
        ensures
            reply@ == method_not_allowed_view(),
    {
        Reply {
            status: METHOD_NOT_ALLOWED,
            media: Media::Empty,
            allow: Some(String::from_str("GET,HEAD")),
            body: String::new(),
        }
    }
}

} // verus!
