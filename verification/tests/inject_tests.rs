use seo_meta::blog_detail_response;
use seo_meta::home_metadata;
use seo_meta::home_response;
use seo_meta::inject_meta_tags;
use seo_meta::render_meta_tags;

const TEMPLATE: &str =
    "<!DOCTYPE html><html><head><meta charset=\"utf-8\"></head><body><div id=\"root\"></div></body></html>";

#[test]
fn injection_grows_document_and_keeps_rest() {
    let meta = home_metadata();
    let block = render_meta_tags(&meta);
    let injected = inject_meta_tags(&meta, TEMPLATE);

    assert!(injected.len() > TEMPLATE.len());

    let marker_pos = TEMPLATE.find("</head>").unwrap();
    let expected = format!(
        "{}{}\n{}",
        &TEMPLATE[..marker_pos],
        block,
        &TEMPLATE[marker_pos..]
    );
    assert_eq!(injected, expected);

    // The block stands immediately before the marker.
    let block_pos = injected.find(&block).unwrap();
    assert_eq!(block_pos, marker_pos);
    assert!(injected[block_pos + block.len()..].starts_with("\n</head>"));
}

#[test]
fn injection_without_marker_returns_original() {
    let meta = home_metadata();
    let template = "<html><body>no head closing tag here</body></html>";
    let injected = inject_meta_tags(&meta, template);
    assert_eq!(injected, template);
}

#[test]
fn injection_uses_first_marker_only() {
    let meta = home_metadata();
    let template = "<html><head></head><body></head></body></html>";
    let injected = inject_meta_tags(&meta, template);
    let block = render_meta_tags(&meta);
    let expected = format!(
        "<html><head>{}\n</head><body></head></body></html>",
        block
    );
    assert_eq!(injected, expected);
}

#[test]
fn rendered_block_holds_all_fields() {
    let meta = home_metadata();
    let block = render_meta_tags(&meta);
    assert!(block.contains("<title>Edgar Manuel Janota</title>"));
    assert!(block.contains("<meta name=\"author\" content=\"Edgar Manuel Janota\">"));
    assert!(block.contains("<link rel=\"canonical\" href=\"https://ndulo.pages.dev\">"));
    assert!(block.contains("<meta property=\"og:image\" content=\"https://ndulo.pages.dev/og-home.jpg\">"));
    assert!(block.contains("<meta name=\"twitter:site\" content=\"@eddiendulo\">"));
    assert!(block.contains("<script type=\"application/ld+json\">"));
}

#[test]
fn home_success_injects_metadata() {
    let reply = home_response(Some(TEMPLATE));
    assert_eq!(reply.status, 200);
    assert!(reply.body.contains("<title>Edgar Manuel Janota</title>"));
    assert!(reply.body.contains("</head>"));
}

#[test]
fn blog_success_injects_metadata() {
    let reply = blog_detail_response("modress-case-study", Some(TEMPLATE));
    assert_eq!(reply.status, 200);
    assert!(reply
        .body
        .contains("<title>Case Study: MODRESS - Marketplace Angolano | Edgar Janota</title>"));
    assert!(reply
        .body
        .contains("<link rel=\"canonical\" href=\"https://ndulo.pages.dev/blog/modress-case-study\">"));
}

#[test]
fn home_template_read_failure_gives_500() {
    let reply = home_response(None);
    assert_eq!(reply.status, 500);
    assert_eq!(reply.body, "Failed to load HTML");
    assert!(!reply.body.contains("Edgar"));
    assert!(!reply.body.contains("ndulo.pages.dev"));
    assert!(!reply.body.contains("<title>"));
}

#[test]
fn blog_template_read_failure_gives_500() {
    let reply = blog_detail_response("modress-case-study", None);
    assert_eq!(reply.status, 500);
    assert_eq!(reply.body, "Failed to load HTML");
    assert!(!reply.body.contains("MODRESS"));
    assert!(!reply.body.contains("<meta"));
}
