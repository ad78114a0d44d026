//! The template injector: renders the fixed-structure metadata block from a
//! record and splices it into an HTML document immediately before the first
//! head-closing marker; a document without the marker is returned unchanged.

use vstd::prelude::*;
use vstd::string::StrSliceExecFns;
use vstd::string::StringExecFns;
use crate::record::MetaTags;
use crate::text::find_first;
use crate::text::first_occurrence;
use crate::text::has_first_occurrence;
use crate::text::insert_before_first;
use crate::text::lemma_first_occurrence_unique;
use crate::text::lemma_insert_no_marker;

verus! {

/// The head-closing marker the injector searches for.
pub open spec fn head_marker() -> Seq<char> {
    "</head>"@
}

/// The structured-data script block: empty when the record carries no
/// structured-data document.
pub open spec fn structured_data_tag(sd: Option<Seq<char>>) -> Seq<char> {
    match sd {
        Some(data) => "<script type=\"application/ld+json\">"@ + data + "</script>"@,
        None => Seq::<char>::empty(),
    }
}

/// The rendered metadata block: the fixed markup with the record's fields
/// substituted at their fixed positions.
pub open spec fn meta_block(
    title: Seq<char>,
    description: Seq<char>,
    url: Seq<char>,
    og_image: Seq<char>,
    keywords: Seq<char>,
    author: Seq<char>,
    twitter_handle: Seq<char>,
    sd: Option<Seq<char>>,
) -> Seq<char> {
    "<title>"@ + title + "</title>\n    <meta name=\"description\" content=\""@ + description
        + "\">\n    <meta name=\"keywords\" content=\""@ + keywords
        + "\">\n    <meta name=\"author\" content=\""@ + author
        + "\">\n    <link rel=\"canonical\" href=\""@ + url
        + "\">\n    \n    <!-- Open Graph / Facebook -->\n    <meta property=\"og:type\" content=\"website\">\n    <meta property=\"og:url\" content=\""@
        + url + "\">\n    <meta property=\"og:title\" content=\""@ + title
        + "\">\n    <meta property=\"og:description\" content=\""@ + description
        + "\">\n    <meta property=\"og:image\" content=\""@ + og_image
        + "\">\n    <meta property=\"og:image:width\" content=\"1200\">\n    <meta property=\"og:image:height\" content=\"630\">\n    <meta property=\"og:locale\" content=\"pt_AO\">\n    <meta property=\"og:locale:alternate\" content=\"en_US\">\n    <meta property=\"og:site_name\" content=\"Edgar Janota Portfolio\">\n    \n    <!-- Twitter -->\n    <meta name=\"twitter:card\" content=\"summary_large_image\">\n    <meta name=\"twitter:site\" content=\""@
        + twitter_handle + "\">\n    <meta name=\"twitter:creator\" content=\""@ + twitter_handle
        + "\">\n    <meta name=\"twitter:url\" content=\""@ + url
        + "\">\n    <meta name=\"twitter:title\" content=\""@ + title
        + "\">\n    <meta name=\"twitter:description\" content=\""@ + description
        + "\">\n    <meta name=\"twitter:image\" content=\""@ + og_image
        + "\">\n    \n    <meta name=\"robots\" content=\"index, follow, max-snippet:-1, max-image-preview:large, max-video-preview:-1\">\n    <meta name=\"googlebot\" content=\"index, follow\">\n    <meta name=\"google\" content=\"notranslate\">\n    <meta http-equiv=\"content-language\" content=\"pt-AO\">\n    \n    <!-- PWA / Mobile -->\n    <meta name=\"mobile-web-app-capable\" content=\"yes\">\n    <meta name=\"apple-mobile-web-app-capable\" content=\"yes\">\n    <meta name=\"apple-mobile-web-app-status-bar-style\" content=\"black-translucent\">\n    <meta name=\"theme-color\" content='#000000'>\n    \n    <!-- Geo Tags -->\n    <meta name=\"geo.region\" content=\"AO-LUA\">\n    <meta name=\"geo.placename\" content=\"Luanda\">\n    <meta name=\"geo.position\" content=\"-8.8383;13.2344\">\n    <meta name=\"ICBM\" content=\"-8.8383, 13.2344\">\n    \n    "@
        + structured_data_tag(sd) + "\n    "@
}

/// The rendered metadata block of a record.
pub open spec fn meta_block_for(m: MetaTags) -> Seq<char> {
    meta_block(
        m.title@,
        m.description@,
        m.url@,
        m.og_image@,
        m.keywords@,
        m.author@,
        m.twitter_handle@,
        match m.structured_data {
            Some(s) => Some(s@),
            None => None,
        },
    )
}

/// The document after injection: the block and a newline stand immediately
/// before the first head-closing marker; a document without the marker is
/// unchanged.
pub open spec fn injected_document(template: Seq<char>, block: Seq<char>) -> Seq<char> {
    insert_before_first(template, head_marker(), block + "\n"@)
}

/// Law: the rendered metadata block is never empty, so injection into a
/// template that has the marker always lengthens the document.
pub proof fn lemma_meta_block_nonempty(
    title: Seq<char>,
    description: Seq<char>,
    url: Seq<char>,
    og_image: Seq<char>,
    keywords: Seq<char>,
    author: Seq<char>,
    twitter_handle: Seq<char>,
    sd: Option<Seq<char>>,
)
    ensures
        meta_block(title, description, url, og_image, keywords, author, twitter_handle, sd).len()
            > 0,
{
    reveal_strlit("<title>");
}

/// Renders the metadata block of a record.
pub fn render_meta_tags(meta: &MetaTags) -> (r: String)
    ensures
        r@ == meta_block_for(*meta),
{
    let mut out = String::new();
    out.append("<title>");
    out.append(meta.title.as_str());
    out.append("</title>\n    <meta name=\"description\" content=\"");
    out.append(meta.description.as_str());
    out.append("\">\n    <meta name=\"keywords\" content=\"");
    out.append(meta.keywords.as_str());
    out.append("\">\n    <meta name=\"author\" content=\"");
    out.append(meta.author.as_str());
    out.append("\">\n    <link rel=\"canonical\" href=\"");
    out.append(meta.url.as_str());
    out.append(
        "\">\n    \n    <!-- Open Graph / Facebook -->\n    <meta property=\"og:type\" content=\"website\">\n    <meta property=\"og:url\" content=\"",
    );
    out.append(meta.url.as_str());
    out.append("\">\n    <meta property=\"og:title\" content=\"");
    out.append(meta.title.as_str());
    out.append("\">\n    <meta property=\"og:description\" content=\"");
    out.append(meta.description.as_str());
    out.append("\">\n    <meta property=\"og:image\" content=\"");
    out.append(meta.og_image.as_str());
    out.append(
        "\">\n    <meta property=\"og:image:width\" content=\"1200\">\n    <meta property=\"og:image:height\" content=\"630\">\n    <meta property=\"og:locale\" content=\"pt_AO\">\n    <meta property=\"og:locale:alternate\" content=\"en_US\">\n    <meta property=\"og:site_name\" content=\"Edgar Janota Portfolio\">\n    \n    <!-- Twitter -->\n    <meta name=\"twitter:card\" content=\"summary_large_image\">\n    <meta name=\"twitter:site\" content=\"",
    );
    out.append(meta.twitter_handle.as_str());
    out.append("\">\n    <meta name=\"twitter:creator\" content=\"");
    out.append(meta.twitter_handle.as_str());
    out.append("\">\n    <meta name=\"twitter:url\" content=\"");
    out.append(meta.url.as_str());
    out.append("\">\n    <meta name=\"twitter:title\" content=\"");
    out.append(meta.title.as_str());
    out.append("\">\n    <meta name=\"twitter:description\" content=\"");
    out.append(meta.description.as_str());
    out.append("\">\n    <meta name=\"twitter:image\" content=\"");
    out.append(meta.og_image.as_str());
    out.append(
        "\">\n    \n    <meta name=\"robots\" content=\"index, follow, max-snippet:-1, max-image-preview:large, max-video-preview:-1\">\n    <meta name=\"googlebot\" content=\"index, follow\">\n    <meta name=\"google\" content=\"notranslate\">\n    <meta http-equiv=\"content-language\" content=\"pt-AO\">\n    \n    <!-- PWA / Mobile -->\n    <meta name=\"mobile-web-app-capable\" content=\"yes\">\n    <meta name=\"apple-mobile-web-app-capable\" content=\"yes\">\n    <meta name=\"apple-mobile-web-app-status-bar-style\" content=\"black-translucent\">\n    <meta name=\"theme-color\" content='#000000'>\n    \n    <!-- Geo Tags -->\n    <meta name=\"geo.region\" content=\"AO-LUA\">\n    <meta name=\"geo.placename\" content=\"Luanda\">\n    <meta name=\"geo.position\" content=\"-8.8383;13.2344\">\n    <meta name=\"ICBM\" content=\"-8.8383, 13.2344\">\n    \n    ",
    );
    match &meta.structured_data {
        Some(data) => {
            out.append("<script type=\"application/ld+json\">");
            out.append(data.as_str());
            out.append("</script>");
        },
        None => {},
    }
    out.append("\n    ");
    proof {
        assert(out@ =~= meta_block_for(*meta));
    }
    out
}

/// Splices the record's rendered metadata block into the template immediately
/// before the first head-closing marker; a template without the marker comes
/// back unchanged.
pub fn inject_meta_tags(meta: &MetaTags, template: &str) -> (r: String)
    ensures
        r@ == injected_document(template@, meta_block_for(*meta)),
{
    let block = render_meta_tags(meta);
    match find_first(template, "</head>") {
        Some(i) => {
            let tlen = template.unicode_len();
            let mut out = template.substring_char(0, i).to_owned();
            out.append(block.as_str());
            out.append("\n");
            out.append(template.substring_char(i, tlen));
            proof {
                assert(has_first_occurrence(template@, head_marker()));
                lemma_first_occurrence_unique(
                    template@,
                    head_marker(),
                    i as int,
                    first_occurrence(template@, head_marker()),
                );
                assert(template@.subrange(0, i as int) =~= template@.take(i as int));
                assert(template@.subrange(i as int, tlen as int) =~= template@.skip(i as int));
                assert(out@ =~= injected_document(template@, meta_block_for(*meta)));
            }
            out
        },
        None => {
            proof {
                lemma_insert_no_marker(template@, head_marker(), meta_block_for(*meta) + "\n"@);
            }
            template.to_owned()
        },
    }
}

} // verus!
