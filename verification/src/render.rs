//! From the template engine's result to the reply for the page.

use vstd::prelude::*;
use crate::reply::{failure_prefix, failure_view, page_view, Media, Reply, ReplyView};

verus! {

/// `askama::Error`, the error of a rendering. Nothing inside it is visible to
/// the proofs.
#[verifier::external_type_specification]
#[verifier::external_body]
pub struct ExRenderError(askama::Error);

/// The text that `askama::Error`'s `Display` impl writes for `error`.
/// Nothing is claimed of the text.
#[verifier::external_body]
fn error_text(error: &askama::Error) -> (text: String) {
    format!("{}", error)
}

/// An HTML template after rendering: the document, or the engine's error.
pub struct HtmlTemplate(pub Result<String, askama::Error>);

/// Whether `reply` reports a failed rendering: status 500, and a plain text
/// that begins with the fixed words and goes on with the failure's message.
pub open spec fn reports_failure(reply: ReplyView) -> bool {
    &&& reply.status == 500
    &&& reply.media == Media::Text
    &&& reply.allow is None
    &&& failure_prefix().is_prefix_of(reply.body)
}

impl HtmlTemplate {
    /// The reply for the page. A document is sent as it is, with status 200.
    /// An error is not fatal: it is sent as a reply of its own, with status
    /// 500 and the error's text after the fixed words.
    pub fn into_response(self) -> (reply: Reply)
        ensures
            match self.0 {
                Ok(html) => reply@ == page_view(html@),
                Err(_) => reports_failure(reply@),
            },
    {
        match self.0 {
            Ok(html) => Reply::page(html),
            Err(error) => {
                let message = error_text(&error);
                let reply = Reply::failure(message.as_str());
                proof {
                    lemma_failure_view_reports_failure(message@);
                }
                reply
            },
        }
    }
}

/// Whatever the message, the reply to a failed rendering reports a failure,
/// and the message is what follows the fixed words in its body.
pub proof fn lemma_failure_view_reports_failure(message: Seq<char>)
    ensures
        reports_failure(failure_view(message)),
        failure_view(message).body.skip(failure_prefix().len() as int) == message,
{
    let body = failure_prefix() + message;
    assert(body.subrange(0, failure_prefix().len() as int) =~= failure_prefix());
    assert(body.skip(failure_prefix().len() as int) =~= message);
}

/// A reply that reports a failure is the reply to a failed rendering whose
/// message is what follows the fixed words in its body.
pub proof fn lemma_failure_report_has_message(reply: ReplyView)
    requires
        reports_failure(reply),
    ensures
        reply == failure_view(reply.body.skip(failure_prefix().len() as int)),
{
    let message = reply.body.skip(failure_prefix().len() as int);
    assert(reply.body =~= failure_prefix() + message);
}

} // verus!
