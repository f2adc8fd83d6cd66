use tls_bootstrap::routes::dispatch;
use tls_bootstrap::routes::welcome_html;
use tls_bootstrap::routes::RouteReply;

#[test]
fn root_redirects_to_index() {
    let reply = dispatch("/");
    assert_eq!(
        reply,
        RouteReply::Redirect { status: 302, location: String::from("/index.html") }
    );
}

#[test]
fn index_serves_welcome_page() {
    match dispatch("/index.html") {
        RouteReply::Page { status, content_type, body } => {
            assert_eq!(status, 200);
            assert_eq!(content_type, "text/html; charset=utf-8");
            assert!(!body.is_empty());
            assert_eq!(body, welcome_html());
            assert!(body.contains("Welcome!"));
        }
        other => panic!("expected a page, got {:?}", other),
    }
}

#[test]
fn favicon_maps_to_static_asset() {
    assert_eq!(
        dispatch("/favicon.ico"),
        RouteReply::File { path: String::from("static/favicon.ico") }
    );
}

#[test]
fn unknown_path_is_not_found() {
    assert_eq!(dispatch("/missing"), RouteReply::NotFound { status: 404 });
    assert_eq!(dispatch(""), RouteReply::NotFound { status: 404 });
    assert_eq!(dispatch("/index.htm"), RouteReply::NotFound { status: 404 });
}
