//! Handler logic for the two metadata routes: given the result of reading the
//! HTML template from disk, each handler either injects the page's metadata
//! block (status 200) or answers with the fixed plain-text error body
//! (status 500). Reading the file itself is the caller's task.

use vstd::prelude::*;
use crate::catalog::catalog_description;
use crate::catalog::catalog_keywords;
use crate::catalog::catalog_title;
use crate::inject::injected_document;
use crate::inject::inject_meta_tags;
use crate::inject::meta_block;
use crate::record::blog_detail_metadata;
use crate::record::blog_url;
use crate::record::home_metadata;
use crate::record::og_image_url;
use crate::record::site_base;
use crate::schema::article_schema;
use crate::schema::person_schema;

verus! {

/// What a handler answers: a status code and a body.
pub struct HttpReply {
    pub status: u16,
    pub body: String,
}

/// The fixed plain-text body of the template-read-failure answer. It carries
/// none of the record's fields.
pub open spec fn error_body() -> Seq<char> {
    "Failed to load HTML"@
}

/// The metadata block of the home page.
pub open spec fn home_meta_block() -> Seq<char> {
    meta_block(
        "Edgar Manuel Janota"@,
        "Fullstack Developer especializado em TypeScript, Node.js, Clean Architecture, Microservices e Event-Driven Systems. "@,
        site_base(),
        "https://ndulo.pages.dev/og-home.jpg"@,
        "Edgar Janota, Fullstack Developer Angola, TypeScript Developer, Rust Developer, Clean Architecture, Microservices, Event-Driven Architecture, DDD, CQRS, SAGA Pattern, Node.js, React, PostgreSQL, Docker, MODRESS, InstantPay"@,
        "Edgar Manuel Janota"@,
        "@eddiendulo"@,
        Some(person_schema()),
    )
}

/// The metadata block of the blog page with identifier `id`.
pub open spec fn blog_meta_block(id: Seq<char>) -> Seq<char> {
    meta_block(
        catalog_title(id),
        catalog_description(id),
        blog_url(id),
        og_image_url(id),
        catalog_keywords(id),
        "Edgar Manuel Janota"@,
        "@edgarjanota"@,
        Some(article_schema(id, catalog_title(id), catalog_description(id))),
    )
}

/// The home handler, given the template read from disk: 200 with the home
/// metadata injected, or 500 with the fixed error body when the read failed.
pub fn home_response(template: Option<&str>) -> (r: HttpReply)
    ensures
        match template {
            Some(t) => r.status == 200 && r.body@ == injected_document(t@, home_meta_block()),
            None => r.status == 500 && r.body@ == error_body(),
        },
{
    match template {
        Some(t) => {
            let meta = home_metadata();
            let body = inject_meta_tags(&meta, t);
            HttpReply { status: 200, body }
        },
        None => HttpReply { status: 500, body: "Failed to load HTML".to_owned() },
    }
}

/// The blog-detail handler, given the identifier and the template read from
/// disk: 200 with that page's metadata injected (the fallback metadata for an
/// unknown identifier), or 500 with the fixed error body when the read
/// failed.
pub fn blog_detail_response(id: &str, template: Option<&str>) -> (r: HttpReply)
    ensures
        match template {
            Some(t) => r.status == 200 && r.body@ == injected_document(t@, blog_meta_block(id@)),
            None => r.status == 500 && r.body@ == error_body(),
        },
{
    match template {
        Some(t) => {
            let meta = blog_detail_metadata(id);
            let body = inject_meta_tags(&meta, t);
            HttpReply { status: 200, body }
        },
        None => HttpReply { status: 500, body: "Failed to load HTML".to_owned() },
    }
}

} // verus!
