use shorte_rs::render::HtmlTemplate;
use shorte_rs::reply::{
    Media, Reply, INTERNAL_SERVER_ERROR, METHOD_NOT_ALLOWED, NOT_FOUND, OK,
};

const PAGE: &str = "<!DOCTYPE html>\n<html>\n  <head><title>Hello</title></head>\n  <body><h1>Hello, world!</h1></body>\n</html>\n";

fn custom(message: &str) -> askama::Error {
    askama::Error::Custom(Box::<dyn std::error::Error + Send + Sync>::from(message))
}

#[test]
fn rendered_page_is_sent_as_html_with_200() {
    let reply = HtmlTemplate(Ok(String::from(PAGE))).into_response();
    assert_eq!(reply.status, 200);
    assert_eq!(reply.media, Media::Html);
    assert_eq!(reply.allow, None);
    assert_eq!(reply.body, PAGE);
    assert!(reply.body.contains("<h1>Hello, world!</h1>"));
}

#[test]
fn rendered_page_is_the_same_on_every_call() {
    let first = HtmlTemplate(Ok(String::from(PAGE))).into_response();
    let second = HtmlTemplate(Ok(String::from(PAGE))).into_response();
    assert_eq!(first, second);
    assert_eq!(first, Reply::page(String::from(PAGE)));
    assert!(!first.body.is_empty());
}

#[test]
fn an_empty_document_is_sent_as_it_is() {
    let reply = HtmlTemplate(Ok(String::new())).into_response();
    assert_eq!(
        reply,
        Reply { status: 200, media: Media::Html, allow: None, body: String::new() }
    );
}

#[test]
fn render_failure_is_a_500_that_names_the_error() {
    let reply = HtmlTemplate(Err(custom("corrupt template"))).into_response();
    assert_eq!(reply.status, 500);
    assert_eq!(reply.media, Media::Text);
    assert_eq!(reply.allow, None);
    assert!(reply.body.starts_with("Failed to render template. Error:"));
    assert_eq!(reply.body, "Failed to render template. Error: corrupt template");
}

#[test]
fn formatting_failure_is_a_500_that_names_the_error() {
    let reply = HtmlTemplate(Err(askama::Error::Fmt(std::fmt::Error))).into_response();
    assert_eq!(reply.status, 500);
    assert_eq!(reply.media, Media::Text);
    assert!(reply.body.starts_with("Failed to render template. Error: "));
    assert_eq!(
        reply.body,
        format!("Failed to render template. Error: formatting error: {}", std::fmt::Error)
    );
    assert_ne!(reply.body, "Failed to render template. Error: ");
}

#[test]
fn render_failure_with_an_empty_message_keeps_the_fixed_words() {
    let reply = HtmlTemplate(Err(custom(""))).into_response();
    assert_eq!(reply, Reply::failure(""));
    assert_eq!(reply.body, "Failed to render template. Error: ");
}

#[test]
fn failure_reply_puts_the_message_after_the_fixed_words() {
    assert_eq!(
        Reply::failure("boom"),
        Reply {
            status: 500,
            media: Media::Text,
            allow: None,
            body: String::from("Failed to render template. Error: boom"),
        }
    );
    assert_eq!(
        Reply::failure("d\u{e9}j\u{e0} vu").body,
        "Failed to render template. Error: d\u{e9}j\u{e0} vu"
    );
}

#[test]
fn page_reply_carries_the_document_unchanged() {
    assert_eq!(
        Reply::page(String::from("<p>\u{1f980}</p>")),
        Reply {
            status: 200,
            media: Media::Html,
            allow: None,
            body: String::from("<p>\u{1f980}</p>"),
        }
    );
}

#[test]
fn not_found_reply_is_an_empty_404() {
    assert_eq!(
        Reply::not_found(),
        Reply { status: 404, media: Media::Empty, allow: None, body: String::new() }
    );
}

#[test]
fn method_not_allowed_reply_lists_the_accepted_methods() {
    assert_eq!(
        Reply::method_not_allowed(),
        Reply {
            status: 405,
            media: Media::Empty,
            allow: Some(String::from("GET,HEAD")),
            body: String::new(),
        }
    );
}

#[test]
fn status_codes_have_their_http_values() {
    assert_eq!(OK, 200);
    assert_eq!(NOT_FOUND, 404);
    assert_eq!(METHOD_NOT_ALLOWED, 405);
    assert_eq!(INTERNAL_SERVER_ERROR, 500);
}
