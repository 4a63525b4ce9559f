//! Server-rendered pages: a published post, and the content types of the
//! files of the built site.
use vstd::prelude::*;
use crate::json::Json;
use crate::render::{
    blocks_html, contact_info_html, footer_html, header_html, make_error, make_response, render_blocks, render_footer,
    render_header, social_links_html, HtmlResponse, SiteSettings,
};
use crate::text::{chars_of, contains, contains_str, ends_with_str, has_suffix};

verus! {

/// A published post as its page shows it.
pub struct PostView {
    pub title: String,
    pub slug: String,
    pub content: Json,
    pub excerpt: Option<String>,
    pub featured_image: Option<String>,
}

/// The page of a post: its title, the site header, the featured image when
/// there is one, the rendered content and the site footer.
pub open spec fn post_page_html(
    title: Seq<char>,
    header: Seq<char>,
    featured: Option<Seq<char>>,
    content: Seq<char>,
    footer: Seq<char>,
) -> Seq<char> {
    let featured_html = match featured {
        Some(img) => "<img src=\""@ + img + "\" alt=\""@ + title
            + "\" class=\"w-full h-64 object-cover rounded-lg mb-8\">"@,
        None => Seq::empty(),
    };
    "<!DOCTYPE html>\n<html><head><meta charset=\"UTF-8\"><title>"@ + title
        + "</title>\n<script src=\"https://cdn.tailwindcss.com\"></script>\n<link rel=\"stylesheet\" href=\"https://cdnjs.cloudflare.com/ajax/libs/font-awesome/6.4.0/css/all.min.css\">\n</head><body class=\"bg-gray-50\">"@
        + header + "\n<div class=\"max-w-4xl mx-auto p-8\">\n<a href=\"/blog\" class=\"text-blue-600\">\u{2190} Back to Blog</a>\n"@
        + featured_html + "\n<h1 class=\"text-4xl font-bold mt-4 mb-6\">"@ + title + "</h1>\n<div class=\"prose\">"@
        + content + "</div>\n</div>\n"@ + footer + "</body></html>"@
}

/// The page of a post of the site named `site_name`, with its settings.
pub open spec fn post_page_of(settings: SiteSettings, site_name: Seq<char>, post: PostView) -> Seq<char> {
    post_page_html(
        post.title@,
        header_html(settings.logo_url@, settings.nav_links@, site_name, ""@),
        match post.featured_image {
            Some(f) => Some(f@),
            None => None,
        },
        blocks_html(post.content@),
        footer_html(
            contact_info_html(settings.contact_phone@, settings.contact_email@, settings.contact_address@),
            social_links_html(settings.social_links@),
            settings.footer_text@,
        ),
    )
}

/// Renders the page of a post of the site named `site_name`.
pub fn render_post_page(settings: &SiteSettings, site_name: &str, post: &PostView) -> (html: String)
    ensures
        html@ == post_page_of(*settings, site_name@, *post),
{
    let header = render_header(settings, site_name, "");
    let footer = render_footer(settings);
    let content = render_blocks(&post.content);
    let mut out = String::new();
    out.append("<!DOCTYPE html>\n<html><head><meta charset=\"UTF-8\"><title>");
    out.append(post.title.as_str());
    out.append("</title>\n<script src=\"https://cdn.tailwindcss.com\"></script>\n<link rel=\"stylesheet\" href=\"https://cdnjs.cloudflare.com/ajax/libs/font-awesome/6.4.0/css/all.min.css\">\n</head><body class=\"bg-gray-50\">");
    out.append(header.as_str());
    out.append("\n<div class=\"max-w-4xl mx-auto p-8\">\n<a href=\"/blog\" class=\"text-blue-600\">\u{2190} Back to Blog</a>\n");
    match &post.featured_image {
        Some(img) => {
            out.append("<img src=\"");
            out.append(img.as_str());
            out.append("\" alt=\"");
            out.append(post.title.as_str());
            out.append("\" class=\"w-full h-64 object-cover rounded-lg mb-8\">");
        },
        None => {},
    }
    out.append("\n<h1 class=\"text-4xl font-bold mt-4 mb-6\">");
    out.append(post.title.as_str());
    out.append("</h1>\n<div class=\"prose\">");
    out.append(content.as_str());
    out.append("</div>\n</div>\n");
    out.append(footer.as_str());
    out.append("</body></html>");
    assert(out@ =~= post_page_of(*settings, site_name@, *post));
    out
}

/// How far the lookups for a post page got: no site, no published post
/// with the slug, settings that could not be read, or everything found.
pub enum PostLookup {
    NoSite,
    NoPost,
    NoSettings,
    Found { site_name: String, post: PostView, settings: SiteSettings },
}

/// The answer to a request for the page of a published post.
pub fn view_post(lookup: &PostLookup) -> (r: HtmlResponse)
    ensures
        match lookup {
            PostLookup::NoSite => r.status == 404 && r.content_type@ == "text/plain"@ && r.body@
                == "No site configured"@,
            PostLookup::NoPost => r.status == 404 && r.content_type@ == "text/plain"@ && r.body@ == "Post not found"@,
            PostLookup::NoSettings => r.status == 500 && r.content_type@ == "text/plain"@ && r.body@
                == "Failed to load settings"@,
            PostLookup::Found { site_name, post, settings } => r.status == 200 && r.content_type@ == "text/html"@
                && r.body@ == post_page_of(*settings, site_name@, *post),
        },
{
    match lookup {
        PostLookup::NoSite => make_error(404, "No site configured"),
        PostLookup::NoPost => make_error(404, "Post not found"),
        PostLookup::NoSettings => make_error(500, "Failed to load settings"),
        PostLookup::Found { site_name, post, settings } => make_response(
            render_post_page(settings, site_name.as_str(), post),
        ),
    }
}

// ---------------------------------------------------------------------------
// Files of the built site
// ---------------------------------------------------------------------------

/// The content type a file of the built site is served with, by the
/// extension of its path: XML (RSS for feeds), JSON, CSS, JavaScript, PNG,
/// JPEG, SVG, icons, and HTML for anything else.
pub open spec fn content_type_of(path: Seq<char>) -> Seq<char> {
    if has_suffix(path, ".xml"@) {
        if contains(path, "sitemap"@) {
            "application/xml"@
        } else if contains(path, "feed"@) || contains(path, "rss"@) {
            "application/rss+xml"@
        } else {
            "application/xml"@
        }
    } else if has_suffix(path, ".json"@) {
        "application/json"@
    } else if has_suffix(path, ".css"@) {
        "text/css"@
    } else if has_suffix(path, ".js"@) {
        "application/javascript"@
    } else if has_suffix(path, ".png"@) {
        "image/png"@
    } else if has_suffix(path, ".jpg"@) || has_suffix(path, ".jpeg"@) {
        "image/jpeg"@
    } else if has_suffix(path, ".svg"@) {
        "image/svg+xml"@
    } else if has_suffix(path, ".ico"@) {
        "image/x-icon"@
    } else {
        "text/html"@
    }
}

/// The content type a file of the built site is served with.
pub fn content_type_for_path(path: &str) -> (t: String)
    ensures
        t@ == content_type_of(path@),
{
    let p = chars_of(path);
    let s = p.as_slice();
    if ends_with_str(s, ".xml") {
        if contains_str(s, "sitemap") {
            String::from_str("application/xml")
        } else if contains_str(s, "feed") || contains_str(s, "rss") {
            String::from_str("application/rss+xml")
        } else {
            String::from_str("application/xml")
        }
    } else if ends_with_str(s, ".json") {
        String::from_str("application/json")
    } else if ends_with_str(s, ".css") {
        String::from_str("text/css")
    } else if ends_with_str(s, ".js") {
        String::from_str("application/javascript")
    } else if ends_with_str(s, ".png") {
        String::from_str("image/png")
    } else if ends_with_str(s, ".jpg") || ends_with_str(s, ".jpeg") {
        String::from_str("image/jpeg")
    } else if ends_with_str(s, ".svg") {
        String::from_str("image/svg+xml")
    } else if ends_with_str(s, ".ico") {
        String::from_str("image/x-icon")
    } else {
        String::from_str("text/html")
    }
}

}
