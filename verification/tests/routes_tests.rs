use seo_meta::route_request;
use seo_meta::Route;

#[test]
fn root_goes_home() {
    assert!(matches!(route_request("/"), Route::Home));
}

#[test]
fn blog_segment_selects_detail() {
    match route_request("/blog/rust-vs-nodejs-performance") {
        Route::BlogDetail(id) => assert_eq!(id, "rust-vs-nodejs-performance"),
        _ => panic!("expected the blog-detail handler"),
    }
}

#[test]
fn blog_without_segment_falls_back() {
    assert!(matches!(route_request("/blog/"), Route::Fallback(_)));
    assert!(matches!(route_request("/blog"), Route::Fallback(_)));
}

#[test]
fn blog_nested_segment_falls_back() {
    assert!(matches!(route_request("/blog/a/b"), Route::Fallback(_)));
}

#[test]
fn assets_path_selects_assets() {
    match route_request("/assets/does-not-exist.png") {
        Route::Assets(rest) => assert_eq!(rest, "does-not-exist.png"),
        _ => panic!("expected the asset directory"),
    }
    match route_request("/assets/css/site.css") {
        Route::Assets(rest) => assert_eq!(rest, "css/site.css"),
        _ => panic!("expected the asset directory"),
    }
}

#[test]
fn client_route_falls_back() {
    match route_request("/some/client/route") {
        Route::Fallback(path) => assert_eq!(path, "/some/client/route"),
        _ => panic!("expected the static-file fallback"),
    }
}
