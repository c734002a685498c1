//! What holds of every request, proved from the route table and the replies.

use vstd::prelude::*;
use crate::method::Method;
use crate::reply::{not_found_view, page_view, Media};
use crate::route::{assets_mount, assets_prefix, decide, matched, page_path, ActionView, Target};

verus! {

/// Every `GET` or `HEAD` request for the page's path has the page rendered,
/// whether or not the assets are served. A rendering that succeeds is sent
/// with status 200, as HTML, and the body is the rendered document itself: so
/// requests whose renderings agree get replies that agree.
pub proof fn lemma_page_is_served(assets: bool, method: Method, html: Seq<char>)
    requires
        method.accepted(),
    ensures
        decide(assets, method, page_path()) == ActionView::Render,
        page_view(html).status == 200,
        page_view(html).media == Media::Html,
        page_view(html).body == html,
{
}

/// A request whose path no route matches is answered with 404, whatever its
/// method.
pub proof fn lemma_unmatched_is_not_found(assets: bool, method: Method, path: Seq<char>)
    requires
        matched(assets, path) is None,
    ensures
        decide(assets, method, path) == ActionView::Respond(not_found_view()),
        not_found_view().status == 404,
{
}

/// Without the assets the page's path is the only one that a route matches.
pub proof fn lemma_page_alone(path: Seq<char>)
    ensures
        matched(false, path) is Some <==> path == page_path(),
        matched(false, path) is Some ==> matched(false, path) == Some(Target::Page),
{
}

/// The two set-ups differ below the mount only: a request whose path does
/// not begin with the mount gets the same answer from both.
pub proof fn lemma_assets_change_the_mount_only(method: Method, path: Seq<char>)
    requires
        !assets_mount().is_prefix_of(path),
    ensures
        decide(true, method, path) == decide(false, method, path),
{
    reveal_strlit("/assets");
    reveal_strlit("/assets/");
    if assets_prefix().is_prefix_of(path) {
        assert(assets_mount() =~= path.subrange(0, 7)) by {
            assert(assets_prefix() == path.subrange(0, 8));
            assert forall|k: int| 0 <= k < 7 implies assets_mount()[k] == path.subrange(0, 7)[k] by {
                assert(assets_prefix()[k] == path.subrange(0, 8)[k]);
            }
        }
    }
    if path == assets_mount() {
        assert(path.subrange(0, 7) =~= path);
    }
}

/// A file is served only where the assets are, and only for a path at or
/// below the mount: the file's path is what follows the mount and a slash in
/// the request's path, and empty for the mount itself.
pub proof fn lemma_served_asset_is_below_the_mount(
    assets: bool,
    method: Method,
    path: Seq<char>,
    rest: Seq<char>,
)
    requires
        decide(assets, method, path) == (ActionView::ServeAsset { rest }),
    ensures
        assets,
        method.accepted(),
        path == assets_prefix() + rest || (path == assets_mount() && rest.len() == 0),
{
    if path != assets_mount() {
        assert(assets_prefix().is_prefix_of(path));
        assert(path =~= assets_prefix() + path.skip(assets_prefix().len() as int));
    }
}

} // verus!
