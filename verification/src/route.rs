//! The route table: which request gets which answer.
//!
//! The table holds the page's route, `GET /`, and, where the assets are
//! served, `GET /assets/*`. It is fixed once the router is built.

use vstd::prelude::*;
use crate::method::Method;
use crate::reply::{method_not_allowed_view, not_found_view, Reply, ReplyView};
use crate::text::{has_prefix, same_text};

verus! {

/// The path of the page.
pub open spec fn page_path() -> Seq<char> {
    "/"@
}

/// The path at which the assets are mounted.
pub open spec fn assets_mount() -> Seq<char> {
    "/assets"@
}

/// What the path of every file below the mount begins with.
pub open spec fn assets_prefix() -> Seq<char> {
    "/assets/"@
}

/// What a matched path leads to.
pub enum Target {
    /// The page.
    Page,
    /// The file `rest` below the assets root; the root itself where `rest` is
    /// empty.
    Asset { rest: Seq<char> },
}

/// The target of the route that matches `path`, if one does. The page's path
/// is matched exactly. With `assets`, so is the mount, and every path that
/// begins with the mount and a slash; what follows that slash is the file's
/// path, taken as it stands.
pub open spec fn matched(assets: bool, path: Seq<char>) -> Option<Target> {
    if path == page_path() {
        Some(Target::Page)
    } else if assets && path == assets_mount() {
        Some(Target::Asset { rest: Seq::empty() })
    } else if assets && assets_prefix().is_prefix_of(path) {
        Some(Target::Asset { rest: path.skip(assets_prefix().len() as int) })
    } else {
        None
    }
}

/// What the server does with a request.
#[derive(Clone, Debug, PartialEq, Eq)]
pub enum Action {
    /// Render the page's template, and send the reply that
    /// [`crate::render::HtmlTemplate::into_response`] makes of the result.
    Render,
    /// Hand the request to the static file handler, which looks for `rest`
    /// below the assets root.
    ServeAsset { rest: String },
    /// Send this reply.
    Respond(Reply),
}

/// An [`Action`] as contracts see it.
pub enum ActionView {
    Render,
    ServeAsset { rest: Seq<char> },
    Respond(ReplyView),
}

impl View for Action {
    type V = ActionView;

    open spec fn view(&self) -> ActionView {
        match self {
            Action::Render => ActionView::Render,
            Action::ServeAsset { rest } => ActionView::ServeAsset { rest: rest@ },
            Action::Respond(reply) => ActionView::Respond(reply@),
        }
    }
}

/// The action for a request. A path that no route matches is answered with
/// 404, whatever the method. A matched path is answered with 405 unless the
/// method is `GET` or `HEAD`; else the page is rendered, or the file served.
pub open spec fn decide(assets: bool, method: Method, path: Seq<char>) -> ActionView {
    match matched(assets, path) {
        None => ActionView::Respond(not_found_view()),
        Some(target) => if !method.accepted() {
            ActionView::Respond(method_not_allowed_view())
        } else {
            match target {
                Target::Page => ActionView::Render,
                Target::Asset { rest } => ActionView::ServeAsset { rest },
            }
        },
    }
}

/// The server's route table.
#[derive(Clone, Copy, Debug, PartialEq, Eq)]
pub struct Router {
    assets: bool,
}

impl Router {
    /// Whether the table holds the route of the assets.
    pub closed spec fn serves_assets(&self) -> bool {
        self.assets
    }

    /// The table with the page's route alone.
    pub fn new() -> (router: Router)
        ensures
            !router.serves_assets(),
    {
        Router { assets: false }
    }

    /// The table with the route of the assets added.
    pub fn with_assets(self) -> (router: Router)
        ensures
            router.serves_assets(),
    {
        Router { assets: true }
    }

    /// Whether the table holds the route of the assets.
    pub fn has_assets(&self) -> (assets: bool)
        ensures
            assets == self.serves_assets(),
    {
        self.assets
    }

    /// Decides what to do with a request, from its method and its path alone.
    pub fn handle(&self, method: Method, path: &str) -> (action: Action)
        ensures
            action@ == decide(self.serves_assets(), method, path@),
            matched(self.serves_assets(), path@) is None ==> ({
                &&& action@ matches ActionView::Respond(reply)
                &&& reply.status == 404
            }),
    {
        if same_text(path, "/") {
            Router::when_accepted(method, Action::Render)
        } else if self.assets && same_text(path, "/assets") {
            Router::when_accepted(method, Action::ServeAsset { rest: String::new() })
        } else if self.assets && has_prefix(path, "/assets/") {
            let rest = path.substring_char("/assets/".unicode_len(), path.unicode_len());
            Router::when_accepted(method, Action::ServeAsset { rest: String::from_str(rest) })
        } else {
            Action::Respond(Reply::not_found())
        }
    }

    /// `action` for a method that the routes accept, the refusal for another.
    fn when_accepted(method: Method, action: Action) -> (taken: Action)
        ensures
            taken@ == if method.accepted() {
                action@
            } else {
                ActionView::Respond(method_not_allowed_view())
            },
    {
        if method.is_accepted() {
            action
        } else {
            Action::Respond(Reply::method_not_allowed())
        }
    }
}

} // verus!
