//! The routing policy: which handler a request path goes to. The root path
//! goes to the home handler; a single non-empty segment below the blog path
//! goes to the blog-detail handler with that segment as identifier; paths
//! below the assets path go to the asset directory; every other path falls
//! back to static-file serving with the root document as last resort.

use vstd::prelude::*;
use vstd::string::StrSliceExecFns;
use crate::text::contains_char;
use crate::text::has_prefix;
use crate::text::str_eq;

verus! {

/// The blog identifier a path selects: the remainder after the blog path
/// prefix, provided it is non-empty and a single segment.
pub open spec fn blog_route_id(p: Seq<char>) -> Option<Seq<char>> {
    let plen = "/blog/"@.len() as int;
    if p.len() > plen && p.subrange(0, plen) == "/blog/"@ && !p.skip(plen).contains('/') {
        Some(p.skip(plen))
    } else {
        None
    }
}

/// The asset sub-path a path selects: the remainder after the assets path
/// prefix.
pub open spec fn asset_route_path(p: Seq<char>) -> Option<Seq<char>> {
    let plen = "/assets/"@.len() as int;
    if p.len() >= plen && p.subrange(0, plen) == "/assets/"@ {
        Some(p.skip(plen))
    } else {
        None
    }
}

/// Where a request path is dispatched.
pub enum Route {
    /// The home handler.
    Home,
    /// The blog-detail handler, with the selected identifier.
    BlogDetail(String),
    /// The asset directory, with the selected sub-path.
    Assets(String),
    /// Static-file serving with the root document as last resort, with the
    /// whole path.
    Fallback(String),
}

/// Dispatches a request path. The root path is the home page; below the blog
/// path a single non-empty segment is a blog identifier; below the assets
/// path everything goes to the asset directory; everything else falls back to
/// static-file serving.
pub fn route_request(path: &str) -> (r: Route)
    ensures
        (r is Home) <==> path@ == "/"@,
        path@ != "/"@ ==> ((r is BlogDetail) <==> blog_route_id(path@) is Some),
        r matches Route::BlogDetail(id) ==> blog_route_id(path@) == Some(id@),
        path@ != "/"@ && blog_route_id(path@) is None ==> ((r is Assets) <==> asset_route_path(
            path@,
        ) is Some),
        r matches Route::Assets(rest) ==> asset_route_path(path@) == Some(rest@),
        (r is Fallback) <==> (path@ != "/"@ && blog_route_id(path@) is None && asset_route_path(
            path@,
        ) is None),
        r matches Route::Fallback(q) ==> q@ == path@,
{
    if str_eq(path, "/") {
        return Route::Home;
    }
    if has_prefix(path, "/blog/") {
        let plen = "/blog/".unicode_len();
        let len = path.unicode_len();
        if len > plen {
            let rest = path.substring_char(plen, len);
            proof {
                assert(rest@ =~= path@.skip("/blog/"@.len() as int));
            }
            if !contains_char(rest, '/') {
                return Route::BlogDetail(rest.to_owned());
            }
        }
    }
    if has_prefix(path, "/assets/") {
        let plen = "/assets/".unicode_len();
        let len = path.unicode_len();
        let rest = path.substring_char(plen, len);
        proof {
            assert(rest@ =~= path@.skip("/assets/"@.len() as int));
        }
        return Route::Assets(rest.to_owned());
    }
    Route::Fallback(path.to_owned())
}

} // verus!
