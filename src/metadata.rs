use vstd::prelude::*;

verus! {

/// The Open Graph fields of a page.
#[derive(Clone, Debug, Default, PartialEq, Eq)]
pub struct Metadata {
    pub title: String,
    pub description: String,
    pub site_name: String,
    pub image_url: String,
    pub brand_url: String,
    pub author: String,
    pub locale: String,
    pub twitter_card: String,
    pub twitter_site: String,
}

/// The head tags for `m`, one per line; field values are copied as they are.
pub open spec fn meta_tags(m: Metadata) -> Seq<char> {
    "<title>"@ + m.title@ + "</title>\n<meta name=\"description\" content=\""@ + m.description@
        + "\" />\n<meta property=\"og:title\" content=\""@ + m.title@
        + "\" />\n<meta property=\"og:description\" content=\""@ + m.description@
        + "\" />\n<meta property=\"og:site_name\" content=\""@ + m.site_name@
        + "\" />\n<meta property=\"og:image\" content=\""@ + m.image_url@
        + "\" />\n<meta property=\"og:author\" content=\""@ + m.author@
        + "\" />\n<meta property=\"og:locale\" content=\""@ + m.locale@
        + "\" />\n<meta name=\"twitter:card\" content=\""@ + m.twitter_card@
        + "\" />\n<meta name=\"twitter:site\" content=\""@ + m.twitter_site@ + "\" />"@
}

/// Writes the head tags that carry `metadata`.
pub fn generate_meta_tags(metadata: Metadata) -> (r: String)
    ensures
        r@ == meta_tags(metadata),
{
    let mut out = String::new();
    out.append("<title>");
    out.append(metadata.title.as_str());
    out.append("</title>\n<meta name=\"description\" content=\"");
    out.append(metadata.description.as_str());
    out.append("\" />\n<meta property=\"og:title\" content=\"");
    out.append(metadata.title.as_str());
    out.append("\" />\n<meta property=\"og:description\" content=\"");
    out.append(metadata.description.as_str());
    out.append("\" />\n<meta property=\"og:site_name\" content=\"");
    out.append(metadata.site_name.as_str());
    out.append("\" />\n<meta property=\"og:image\" content=\"");
    out.append(metadata.image_url.as_str());
    out.append("\" />\n<meta property=\"og:author\" content=\"");
    out.append(metadata.author.as_str());
    out.append("\" />\n<meta property=\"og:locale\" content=\"");
    out.append(metadata.locale.as_str());
    out.append("\" />\n<meta name=\"twitter:card\" content=\"");
    out.append(metadata.twitter_card.as_str());
    out.append("\" />\n<meta name=\"twitter:site\" content=\"");
    out.append(metadata.twitter_site.as_str());
    out.append("\" />");
    assert(out@ =~= meta_tags(metadata));
    out
}

} // verus!
