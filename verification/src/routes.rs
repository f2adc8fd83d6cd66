//! The route table.
//!
//! One read-only mapping from request path to reply, shared by every
//! listener. `dispatch` decides the reply for a path; it knows nothing of
//! the transport the request arrived on, so plaintext and TLS listeners
//! answer identically by construction.

use vstd::prelude::*;

verus! {

/// Relies on str's PartialEq: two string slices are equal exactly when
/// their character sequences are.
pub assume_specification[ <str as PartialEq>::eq ](s: &str, other: &str) -> (r: bool)
    ensures
        r == (s@ == other@),
;

/// The reply the router prescribes for a request path.
#[derive(PartialEq, Eq, Debug)]
pub enum RouteReply {
    /// A complete page: status, content type, body.
    Page { status: u16, content_type: String, body: String },
    /// A redirect: status and the Location target.
    Redirect { status: u16, location: String },
    /// A file handed off to the static-asset collaborator, which answers
    /// 404 itself when the file is absent.
    File { path: String },
    /// No route matched.
    NotFound { status: u16 },
}

/// The static welcome page.
pub open spec fn welcome_body() -> Seq<char> {
    "<!DOCTYPE html><html><body><p>Welcome!</p></body></html>"@
}

/// The welcome page as an owned string; never empty.
pub fn welcome_html() -> (r: String)
    ensures
        r@ == welcome_body(),
        r@.len() > 0,
{
    proof {
        reveal_strlit("<!DOCTYPE html><html><body><p>Welcome!</p></body></html>");
    }
    "<!DOCTYPE html><html><body><p>Welcome!</p></body></html>".to_owned()
}

/// Whether `request_path` spells exactly `expected`.
fn path_is(request_path: &str, expected: &str) -> (r: bool)
    ensures
        r == (request_path@ == expected@),
{
    request_path.eq(expected)
}

/// The reply for a request path. The root redirects to the welcome page,
/// the welcome page is served with its HTML content type and a non-empty
/// body, the favicon is handed to the static-asset collaborator, and
/// everything else is 404. No other input plays a part: in particular, the
/// reply does not depend on whether TLS is available.
pub fn dispatch(request_path: &str) -> (r: RouteReply)
    ensures
        request_path@ == "/"@ ==> (r matches RouteReply::Redirect { status, location } && status
            == 302 && location@ == "/index.html"@),
        request_path@ == "/index.html"@ ==> (r matches RouteReply::Page {
            status,
            content_type,
            body,
        } && status == 200 && content_type@ == "text/html; charset=utf-8"@ && body@
            == welcome_body() && body@.len() > 0),
        request_path@ == "/favicon.ico"@ ==> (r matches RouteReply::File { path } && path@
            == "static/favicon.ico"@),
        (!(request_path@ == "/"@) && !(request_path@ == "/index.html"@) && !(request_path@
            == "/favicon.ico"@)) ==> r == (RouteReply::NotFound { status: 404 }),
{
    proof {
        reveal_strlit("/");
        reveal_strlit("/index.html");
        reveal_strlit("/favicon.ico");
        // The three paths have different lengths, so no two are equal.
        assert(("/"@).len() == 1);
        assert(("/index.html"@).len() == 11);
        assert(("/favicon.ico"@).len() == 12);
    }
    if path_is(request_path, "/") {
        RouteReply::Redirect { status: 302, location: "/index.html".to_owned() }
    } else if path_is(request_path, "/index.html") {
        RouteReply::Page {
            status: 200,
            content_type: "text/html; charset=utf-8".to_owned(),
            body: welcome_html(),
        }
    } else if path_is(request_path, "/favicon.ico") {
        RouteReply::File { path: "static/favicon.ico".to_owned() }
    } else {
        RouteReply::NotFound { status: 404 }
    }
}

} // verus!
