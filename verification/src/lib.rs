//! Per-route SEO metadata for a single-page application.
//!
//! The library holds a fixed catalog of page metadata, generates
//! structured-data documents for the home and blog pages, renders a metadata
//! block, and splices it into an HTML template immediately before the first
//! head-closing marker. Every function is verified: the catalog lookup, the
//! structured-data generators, the template injection and the routing policy
//! each carry a contract stating exactly what they produce.

pub mod catalog;
pub mod handlers;
pub mod inject;
pub mod record;
pub mod routes;
pub mod schema;
pub mod text;

pub use catalog::blog_catalog_lookup;
pub use handlers::blog_detail_response;
pub use handlers::home_response;
pub use handlers::HttpReply;
pub use inject::inject_meta_tags;
pub use inject::render_meta_tags;
pub use record::blog_detail_metadata;
pub use record::home_metadata;
pub use record::MetaTags;
pub use routes::route_request;
pub use routes::Route;
pub use schema::get_article_schema;
pub use schema::get_person_schema;
pub use text::find_first;
pub use text::str_eq;
