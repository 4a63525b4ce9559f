//! The plan of a statically built site: navigation, sitemap, RSS feed and
//! the pages to render with their template variables.
use vstd::prelude::*;
use crate::json_text::{json_text, object_text};
use crate::json::{entries_get, json_entries, json_text_or_null, json_vals, push_entry, push_item, text_or_null, val_get, Json, JsonVal};
use crate::ssg::{first_image, extract_first_image, page_blocks_html, render_blocks};
use crate::text::{chars_eq_str, chars_of, has_prefix, join, lemma_join_push, push_joined, starts_with_str};

verus! {

/// A page of a site, as the build reads it.
pub struct SitePage {
    pub title: String,
    pub slug: String,
    pub content: Json,
    pub is_homepage: bool,
    pub show_in_nav: bool,
    pub sort_order: i32,
}

/// A published post of a site, as the build reads it; `published_at` is in
/// seconds since the Unix epoch.
pub struct PublishedPost {
    pub title: String,
    pub slug: String,
    pub content: Json,
    pub excerpt: Option<String>,
    pub featured_image: Option<String>,
    pub published_at: Option<i64>,
}

/// A link of the generated navigation.
pub struct NavLink {
    pub label: String,
    pub url: String,
}

/// The settings of a site that the build reads.
pub struct SiteInfo {
    pub name: String,
    pub description: Option<String>,
    pub logo_url: Option<String>,
    pub favicon_url: Option<String>,
    pub footer_text: Option<String>,
    pub social_links: Option<Json>,
    pub contact_phone: Option<String>,
    pub contact_email: Option<String>,
    pub contact_address: Option<String>,
    pub custom_domain: Option<String>,
    pub homepage_type: Option<String>,
    pub blog_path: Option<String>,
    pub blog_sort_order: i32,
}

// ---------------------------------------------------------------------------
// Site address
// ---------------------------------------------------------------------------

/// The public address of a site: its custom domain (with `https://` added
/// unless it starts with `http`), or `https://example.com` without one.
pub open spec fn site_url_of(domain: Option<Seq<char>>) -> Seq<char> {
    match domain {
        Some(d) => if has_prefix(d, "http"@) {
            d
        } else {
            "https://"@ + d
        },
        None => "https://example.com"@,
    }
}

/// The public address of a site.
pub fn site_url(domain: &Option<String>) -> (url: String)
    ensures
        url@ == site_url_of(match domain {
            Some(d) => Some(d@),
            None => None,
        }),
{
    match domain {
        Some(d) => {
            let dc = chars_of(d.as_str());
            if starts_with_str(dc.as_slice(), "http") {
                d.clone()
            } else {
                let mut out = String::new();
                out.append("https://");
                out.append(d.as_str());
                out
            }
        },
        None => String::from_str("https://example.com"),
    }
}

// ---------------------------------------------------------------------------
// Navigation
// ---------------------------------------------------------------------------

/// The first page marked as the homepage.
pub open spec fn homepage_of(pages: Seq<SitePage>) -> Option<SitePage>
    decreases pages.len(),
{
    if pages.len() == 0 {
        None
    } else if pages[0].is_homepage {
        Some(pages[0])
    } else {
        homepage_of(pages.skip(1))
    }
}

/// The navigation entries (label, URL) of the pages other than homepages
/// that are shown in the navigation, in order, each under `/{slug}`.
pub open spec fn page_nav_entries(pages: Seq<SitePage>) -> Seq<(Seq<char>, Seq<char>)>
    decreases pages.len(),
{
    if pages.len() == 0 {
        Seq::empty()
    } else {
        let prev = page_nav_entries(pages.drop_last());
        let p = pages.last();
        if !p.is_homepage && p.show_in_nav {
            prev.push((p.title@, "/"@ + p.slug@))
        } else {
            prev
        }
    }
}

/// Where the blog link goes among `len` links for a sort order counted from
/// 1: before the link at that position, at the front for 0, and at the end
/// when the position is past the end or the order is negative (a negative
/// order converts to a huge position).
pub open spec fn blog_position(order: i32, len: nat) -> int {
    if order > 0 {
        if order - 1 < len {
            order - 1
        } else {
            len as int
        }
    } else if order == 0 {
        0
    } else {
        len as int
    }
}

/// Whether the site shows a blog (`blog` or `both` homepage types).
pub open spec fn has_blog(homepage_type: Seq<char>) -> bool {
    homepage_type == "blog"@ || homepage_type == "both"@
}

/// The homepage type of a site, `both` when unset.
pub open spec fn homepage_type_of(site: SiteInfo) -> Seq<char> {
    match site.homepage_type {
        Some(t) => t@,
        None => "both"@,
    }
}

/// The path of the blog of a site, `/blog` when unset.
pub open spec fn blog_path_of(site: SiteInfo) -> Seq<char> {
    match site.blog_path {
        Some(p) => p@,
        None => "/blog"@,
    }
}

/// The navigation of the pages of a site: the homepage under `/` when it is
/// shown, then the other shown pages in order.
pub open spec fn nav_base(pages: Seq<SitePage>) -> Seq<(Seq<char>, Seq<char>)> {
    let home = match homepage_of(pages) {
        Some(h) => if h.show_in_nav {
            seq![(h.title@, "/"@)]
        } else {
            Seq::empty()
        },
        None => Seq::empty(),
    };
    home + page_nav_entries(pages)
}

/// The navigation of a built site: the homepage under `/` when it is shown,
/// the other shown pages in order, and the blog link at its sort position
/// when the site has a blog.
pub open spec fn nav_entries(pages: Seq<SitePage>, site: SiteInfo) -> Seq<(Seq<char>, Seq<char>)> {
    let base = nav_base(pages);
    if has_blog(homepage_type_of(site)) {
        base.insert(blog_position(site.blog_sort_order, base.len()), ("Blog"@, blog_path_of(site)))
    } else {
        base
    }
}

/// The view of a navigation link.
pub open spec fn nav_view(l: NavLink) -> (Seq<char>, Seq<char>) {
    (l.label@, l.url@)
}

fn homepage_index(pages: &Vec<SitePage>) -> (r: Option<usize>)
    ensures
        r matches Some(i) ==> i < pages@.len() && homepage_of(pages@) == Some(pages@[i as int]),
        r is None ==> homepage_of(pages@) is None,
{
    assert(pages@.skip(0) =~= pages@);
    for i in 0..pages.len()
        invariant
            homepage_of(pages@) == homepage_of(pages@.skip(i as int)),
    {
        assert(pages@.skip(i as int)[0] == pages@[i as int]);
        if pages[i].is_homepage {
            return Some(i);
        }
        assert(pages@.skip(i as int).skip(1) =~= pages@.skip(i + 1));
    }
    None
}

/// The navigation links of a built site.
pub fn build_nav_links(pages: &Vec<SitePage>, site: &SiteInfo) -> (links: Vec<NavLink>)
    ensures
        links@.map_values(|l: NavLink| nav_view(l)) == nav_entries(pages@, *site),
{
    let mut links: Vec<NavLink> = Vec::new();
    let ghost home: Seq<(Seq<char>, Seq<char>)> = Seq::empty();
    match homepage_index(pages) {
        Some(h) => {
            if pages[h].show_in_nav {
                links.push(NavLink { label: pages[h].title.clone(), url: String::from_str("/") });
                proof { home = seq![(pages@[h as int].title@, "/"@)]; }
            }
        },
        None => {},
    }
    assert(links@.map_values(|l: NavLink| nav_view(l)) =~= home);
    let ghost hl = links@.len();
    assert(pages@.take(0) =~= Seq::<SitePage>::empty());
    for i in 0..pages.len()
        invariant
            hl == home.len(),
            links@.map_values(|l: NavLink| nav_view(l)) == home + page_nav_entries(pages@.take(i as int)),
    {
        assert(pages@.take(i + 1).drop_last() =~= pages@.take(i as int));
        assert(pages@.take(i + 1).last() == pages@[i as int]);
        if !pages[i].is_homepage && pages[i].show_in_nav {
            let mut url = String::new();
            url.append("/");
            url.append(pages[i].slug.as_str());
            let ghost before = links@;
            links.push(NavLink { label: pages[i].title.clone(), url });
            assert(links@.map_values(|l: NavLink| nav_view(l)) =~= before.map_values(|l: NavLink| nav_view(l)).push(
                (pages@[i as int].title@, "/"@ + pages@[i as int].slug@),
            ));
        }
    }
    assert(pages@.take(pages.len() as int) =~= pages@);
    let ghost base = links@.map_values(|l: NavLink| nav_view(l));
    let ht = match &site.homepage_type {
        Some(t) => chars_of(t.as_str()),
        None => chars_of("both"),
    };
    if chars_eq_str(ht.as_slice(), "blog") || chars_eq_str(ht.as_slice(), "both") {
        let len = links.len();
        let order = site.blog_sort_order;
        let pos: usize = if order > 0 {
            let p = (order - 1) as usize;
            if p < len { p } else { len }
        } else if order == 0 {
            0
        } else {
            len
        };
        assert(pos == blog_position(order, base.len()));
        let path = match &site.blog_path {
            Some(p) => p.clone(),
            None => String::from_str("/blog"),
        };
        let ghost before = links@;
        links.insert(pos, NavLink { label: String::from_str("Blog"), url: path });
        assert(links@.map_values(|l: NavLink| nav_view(l)) =~= base.insert(pos as int, ("Blog"@, blog_path_of(*site))));
    }
    links
}


// ---------------------------------------------------------------------------
// Sitemap
// ---------------------------------------------------------------------------

/// The sitemap entry of a page.
pub open spec fn sitemap_page_entry(url: Seq<char>, slug: Seq<char>) -> Seq<char> {
    "<url>\n    <loc>"@ + url + "/"@ + slug
        + "</loc>\n    <changefreq>monthly</changefreq>\n    <priority>0.6</priority>\n</url>"@
}

/// The sitemap entry of a post.
pub open spec fn sitemap_post_entry(url: Seq<char>, slug: Seq<char>) -> Seq<char> {
    "<url>\n    <loc>"@ + url + "/blog/"@ + slug
        + "</loc>\n    <changefreq>weekly</changefreq>\n    <priority>0.8</priority>\n</url>"@
}

/// The sitemap entries of the pages other than homepages and the page with
/// slug `blog`, in order.
pub open spec fn sitemap_page_entries(url: Seq<char>, pages: Seq<SitePage>) -> Seq<Seq<char>>
    decreases pages.len(),
{
    if pages.len() == 0 {
        Seq::empty()
    } else {
        let prev = sitemap_page_entries(url, pages.drop_last());
        let p = pages.last();
        if !p.is_homepage && p.slug@ != "blog"@ {
            prev.push(sitemap_page_entry(url, p.slug@))
        } else {
            prev
        }
    }
}

/// The sitemap entries of the posts, in order.
pub open spec fn sitemap_post_entries(url: Seq<char>, posts: Seq<PublishedPost>) -> Seq<Seq<char>> {
    posts.map_values(|p: PublishedPost| sitemap_post_entry(url, p.slug@))
}

/// The head of the sitemap: the site root and the blog.
pub open spec fn sitemap_head(url: Seq<char>) -> Seq<char> {
    "<?xml version=\"1.0\" encoding=\"UTF-8\"?>\n<urlset xmlns=\"http://www.sitemaps.org/schemas/sitemap/0.9\">\n<url>\n    <loc>"@
        + url + "/</loc>\n    <changefreq>daily</changefreq>\n    <priority>1.0</priority>\n</url>\n<url>\n    <loc>"@
        + url + "/blog</loc>\n    <changefreq>daily</changefreq>\n    <priority>0.9</priority>\n</url>\n"@
}

/// The sitemap of a site at `url`: the root, the blog, the pages, then the
/// posts.
pub open spec fn sitemap_text(url: Seq<char>, pages: Seq<SitePage>, posts: Seq<PublishedPost>) -> Seq<char> {
    sitemap_head(url) + join(sitemap_page_entries(url, pages), "\n"@) + "\n"@
        + join(sitemap_post_entries(url, posts), "\n"@) + "\n</urlset>"@
}

fn push_sitemap_page_entry(out: &mut String, url: &str, slug: &str)
    ensures
        final(out)@ == old(out)@ + sitemap_page_entry(url@, slug@),
{
    out.append("<url>\n    <loc>");
    out.append(url);
    out.append("/");
    out.append(slug);
    out.append("</loc>\n    <changefreq>monthly</changefreq>\n    <priority>0.6</priority>\n</url>");
}

fn push_sitemap_post_entry(out: &mut String, url: &str, slug: &str)
    ensures
        final(out)@ == old(out)@ + sitemap_post_entry(url@, slug@),
{
    out.append("<url>\n    <loc>");
    out.append(url);
    out.append("/blog/");
    out.append(slug);
    out.append("</loc>\n    <changefreq>weekly</changefreq>\n    <priority>0.8</priority>\n</url>");
}

/// The sitemap of a site at `site_url` with the given pages and posts.
pub fn sitemap_xml(site_url: &str, pages: &Vec<SitePage>, posts: &Vec<PublishedPost>) -> (xml: String)
    ensures
        xml@ == sitemap_text(site_url@, pages@, posts@),
{
    let mut out = String::new();
    out.append("<?xml version=\"1.0\" encoding=\"UTF-8\"?>\n<urlset xmlns=\"http://www.sitemaps.org/schemas/sitemap/0.9\">\n<url>\n    <loc>");
    out.append(site_url);
    out.append("/</loc>\n    <changefreq>daily</changefreq>\n    <priority>1.0</priority>\n</url>\n<url>\n    <loc>");
    out.append(site_url);
    out.append("/blog</loc>\n    <changefreq>daily</changefreq>\n    <priority>0.9</priority>\n</url>\n");
    let ghost head = out@;
    assert(head == sitemap_head(site_url@));
    let mut first = true;
    assert(pages@.take(0) =~= Seq::<SitePage>::empty());
    for i in 0..pages.len()
        invariant
            out@ == head + join(sitemap_page_entries(site_url@, pages@.take(i as int)), "\n"@),
            first == (sitemap_page_entries(site_url@, pages@.take(i as int)).len() == 0),
    {
        assert(pages@.take(i + 1).drop_last() =~= pages@.take(i as int));
        assert(pages@.take(i + 1).last() == pages@[i as int]);
        let p = &pages[i];
        let slug = chars_of(p.slug.as_str());
        if !p.is_homepage && !chars_eq_str(slug.as_slice(), "blog") {
            let mut entry = String::new();
            push_sitemap_page_entry(&mut entry, site_url, p.slug.as_str());
            proof {
                lemma_join_push(sitemap_page_entries(site_url@, pages@.take(i as int)), entry@, "\n"@);
            }
            push_joined(&mut out, first, "\n", entry.as_str());
            first = false;
        }
    }
    assert(pages@.take(pages.len() as int) =~= pages@);
    out.append("\n");
    let ghost mid = out@;
    let mut first = true;
    for i in 0..posts.len()
        invariant
            out@ == mid + join(sitemap_post_entries(site_url@, posts@.take(i as int)), "\n"@),
            first == (i == 0),
    {
        let ghost done = sitemap_post_entries(site_url@, posts@.take(i as int));
        assert(sitemap_post_entries(site_url@, posts@.take(i + 1)) =~= done.push(
            sitemap_post_entry(site_url@, posts@[i as int].slug@),
        ));
        let mut entry = String::new();
        push_sitemap_post_entry(&mut entry, site_url, posts[i].slug.as_str());
        proof {
            lemma_join_push(done, entry@, "\n"@);
        }
        push_joined(&mut out, first, "\n", entry.as_str());
        first = false;
    }
    assert(posts@.take(posts.len() as int) =~= posts@);
    out.append("\n</urlset>");
    out
}


// ---------------------------------------------------------------------------
// Dates
// ---------------------------------------------------------------------------

/// The text that chrono writes for the instant `secs` seconds after the Unix
/// epoch, in UTC, under the strftime-style `pattern`; `None` where chrono
/// has no such instant.
pub uninterp spec fn utc_text(secs: i64, pattern: Seq<char>) -> Option<Seq<char>>;

/// The RFC 822 form of a date in the feed.
pub open spec fn rfc822_pattern() -> Seq<char> {
    "%a, %d %b %Y %H:%M:%S +0000"@
}

/// The day form of a date on pages.
pub open spec fn day_pattern() -> Seq<char> {
    "%Y-%m-%d"@
}

/// Calls `chrono::DateTime::from_timestamp` (whole seconds) and formats the
/// instant with `DateTime::format` under `pattern`. The contract says only
/// that the text is the named result for these arguments; nothing is said
/// of the calendar arithmetic. The two patterns admitted hold only valid
/// specifiers, so the formatting cannot fail.
#[verifier::external_body]
fn format_utc(secs: i64, pattern: &str) -> (r: Option<String>)
    requires
        pattern@ == day_pattern() || pattern@ == rfc822_pattern(),
    ensures
        utc_text(secs, pattern@) == (match r {
            Some(t) => Some(t@),
            None => None,
        }),
{
    match chrono::DateTime::from_timestamp(secs, 0) {
        Some(dt) => Some(dt.format(pattern).to_string()),
        None => None,
    }
}

/// The date text of an instant under a pattern, empty where there is none.
pub open spec fn date_text(secs: i64, pattern: Seq<char>) -> Seq<char> {
    match utc_text(secs, pattern) {
        Some(t) => t,
        None => Seq::empty(),
    }
}

/// The date of a post under a pattern: its publication time, or the build
/// time `now` when it has none.
pub open spec fn post_date(published_at: Option<i64>, now: i64, pattern: Seq<char>) -> Seq<char> {
    match published_at {
        Some(t) => date_text(t, pattern),
        None => date_text(now, pattern),
    }
}

fn push_date(out: &mut String, secs: i64, pattern: &str)
    requires
        pattern@ == day_pattern() || pattern@ == rfc822_pattern(),
    ensures
        final(out)@ == old(out)@ + date_text(secs, pattern@),
{
    match format_utc(secs, pattern) {
        Some(t) => out.append(t.as_str()),
        None => {},
    }
}

/// The date of a post under a pattern, as [`post_date`] gives it.
pub fn format_post_date(published_at: Option<i64>, now: i64, pattern: &str) -> (d: String)
    requires
        pattern@ == day_pattern() || pattern@ == rfc822_pattern(),
    ensures
        d@ == post_date(published_at, now, pattern@),
{
    let mut d = String::new();
    match published_at {
        Some(t) => push_date(&mut d, t, pattern),
        None => push_date(&mut d, now, pattern),
    }
    d
}

// ---------------------------------------------------------------------------
// RSS feed
// ---------------------------------------------------------------------------

/// The feed item of a post of a site at `url`.
pub open spec fn feed_item(url: Seq<char>, post: PublishedPost, now: i64) -> Seq<char> {
    "<item>\n        <title><![CDATA["@ + post.title@ + "]]></title>\n        <link>"@ + url + "/blog/"@
        + post.slug@ + "</link>\n        <guid isPermaLink=\"true\">"@ + url + "/blog/"@ + post.slug@
        + "</guid>\n        <pubDate>"@ + post_date(post.published_at, now, rfc822_pattern())
        + "</pubDate>\n        <description><![CDATA["@ + (match post.excerpt {
        Some(e) => e@,
        None => Seq::empty(),
    }) + "]]></description>\n    </item>"@
}

/// The feed items of the posts, in order.
pub open spec fn feed_items(url: Seq<char>, posts: Seq<PublishedPost>, now: i64) -> Seq<Seq<char>> {
    posts.map_values(|p: PublishedPost| feed_item(url, p, now))
}

/// The RSS feed of a site at `url`, built at `now`; its description is the
/// site's description, or its name without one.
pub open spec fn feed_text(site: SiteInfo, url: Seq<char>, posts: Seq<PublishedPost>, now: i64) -> Seq<char> {
    "<?xml version=\"1.0\" encoding=\"UTF-8\"?>\n<rss version=\"2.0\" xmlns:atom=\"http://www.w3.org/2005/Atom\">\n<channel>\n    <title>"@
        + site.name@ + "</title>\n    <link>"@ + url + "</link>\n    <description>"@ + (match site.description {
        Some(d) => d@,
        None => site.name@,
    }) + "</description>\n    <language>en-us</language>\n    <lastBuildDate>"@ + date_text(now, rfc822_pattern())
        + "</lastBuildDate>\n    <atom:link href=\""@ + url
        + "/feed.xml\" rel=\"self\" type=\"application/rss+xml\"/>\n"@ + join(feed_items(url, posts, now), "\n"@)
        + "\n</channel>\n</rss>"@
}

fn push_feed_item(out: &mut String, url: &str, post: &PublishedPost, now: i64)
    ensures
        final(out)@ == old(out)@ + feed_item(url@, *post, now),
{
    out.append("<item>\n        <title><![CDATA[");
    out.append(post.title.as_str());
    out.append("]]></title>\n        <link>");
    out.append(url);
    out.append("/blog/");
    out.append(post.slug.as_str());
    out.append("</link>\n        <guid isPermaLink=\"true\">");
    out.append(url);
    out.append("/blog/");
    out.append(post.slug.as_str());
    out.append("</guid>\n        <pubDate>");
    let date = format_post_date(post.published_at, now, "%a, %d %b %Y %H:%M:%S +0000");
    out.append(date.as_str());
    out.append("</pubDate>\n        <description><![CDATA[");
    match &post.excerpt {
        Some(e) => out.append(e.as_str()),
        None => {},
    }
    out.append("]]></description>\n    </item>");
}

/// The RSS feed of a site at `site_url` with its posts, built at `now`.
pub fn feed_xml(site: &SiteInfo, site_url: &str, posts: &Vec<PublishedPost>, now: i64) -> (xml: String)
    ensures
        xml@ == feed_text(*site, site_url@, posts@, now),
{
    let mut out = String::new();
    out.append("<?xml version=\"1.0\" encoding=\"UTF-8\"?>\n<rss version=\"2.0\" xmlns:atom=\"http://www.w3.org/2005/Atom\">\n<channel>\n    <title>");
    out.append(site.name.as_str());
    out.append("</title>\n    <link>");
    out.append(site_url);
    out.append("</link>\n    <description>");
    match &site.description {
        Some(d) => out.append(d.as_str()),
        None => out.append(site.name.as_str()),
    }
    out.append("</description>\n    <language>en-us</language>\n    <lastBuildDate>");
    push_date(&mut out, now, "%a, %d %b %Y %H:%M:%S +0000");
    out.append("</lastBuildDate>\n    <atom:link href=\"");
    out.append(site_url);
    out.append("/feed.xml\" rel=\"self\" type=\"application/rss+xml\"/>\n");
    let ghost head = out@;
    let mut first = true;
    for i in 0..posts.len()
        invariant
            out@ == head + join(feed_items(site_url@, posts@.take(i as int), now), "\n"@),
            first == (i == 0),
    {
        let ghost done = feed_items(site_url@, posts@.take(i as int), now);
        assert(feed_items(site_url@, posts@.take(i + 1), now) =~= done.push(
            feed_item(site_url@, posts@[i as int], now),
        ));
        let mut item = String::new();
        push_feed_item(&mut item, site_url, &posts[i], now);
        proof {
            lemma_join_push(done, item@, "\n"@);
        }
        push_joined(&mut out, first, "\n", item.as_str());
        first = false;
    }
    assert(posts@.take(posts.len() as int) =~= posts@);
    out.append("\n</channel>\n</rss>");
    out
}


// ---------------------------------------------------------------------------
// Template contexts
// ---------------------------------------------------------------------------

/// The JSON object of a navigation link.
pub open spec fn nav_link_json(l: (Seq<char>, Seq<char>)) -> JsonVal {
    JsonVal::Object(seq![("label"@, JsonVal::Str(l.0)), ("url"@, JsonVal::Str(l.1))])
}

/// The variables that every page of a site is rendered with.
pub open spec fn context_of(
    site_name: Seq<char>,
    site_description: Option<String>,
    logo_url: Option<String>,
    favicon_url: Option<String>,
    nav: Seq<(Seq<char>, Seq<char>)>,
    footer_text: Option<String>,
    social_links: JsonVal,
    contact_phone: Option<String>,
    contact_email: Option<String>,
    contact_address: Option<String>,
) -> Seq<(Seq<char>, JsonVal)> {
    seq![
        ("site_name"@, JsonVal::Str(site_name)),
        ("site_description"@, text_or_null(site_description)),
        ("logo_url"@, text_or_null(logo_url)),
        ("favicon_url"@, text_or_null(favicon_url)),
        ("nav_links"@, JsonVal::Array(nav.map_values(|l: (Seq<char>, Seq<char>)| nav_link_json(l)))),
        ("footer_text"@, text_or_null(footer_text)),
        ("social_links"@, social_links),
        ("contact_phone"@, text_or_null(contact_phone)),
        ("contact_email"@, text_or_null(contact_email)),
        ("contact_address"@, text_or_null(contact_address)),
    ]
}

/// The social links of a site, an empty object when it has none.
pub open spec fn social_links_of(site: SiteInfo) -> JsonVal {
    match site.social_links {
        Some(j) => j@,
        None => JsonVal::Object(Seq::empty()),
    }
}

/// The variables that every page of a site is rendered with, for the given
/// navigation.
pub open spec fn site_context(site: SiteInfo, nav: Seq<(Seq<char>, Seq<char>)>) -> Seq<(Seq<char>, JsonVal)> {
    context_of(
        site.name@,
        site.description,
        site.logo_url,
        site.favicon_url,
        nav,
        site.footer_text,
        social_links_of(site),
        site.contact_phone,
        site.contact_email,
        site.contact_address,
    )
}

fn nav_links_json(links: &Vec<NavLink>) -> (j: Json)
    ensures
        j@ == JsonVal::Array(
            links@.map_values(|l: NavLink| nav_view(l)).map_values(|l: (Seq<char>, Seq<char>)| nav_link_json(l)),
        ),
{
    let mut items: Vec<Json> = Vec::new();
    for i in 0..links.len()
        invariant
            json_vals(items@) == links@.take(i as int).map_values(|l: NavLink| nav_view(l)).map_values(
                |l: (Seq<char>, Seq<char>)| nav_link_json(l),
            ),
    {
        let mut entry: Vec<(String, Json)> = Vec::new();
        push_entry(&mut entry, "label", Json::Str(links[i].label.clone()));
        push_entry(&mut entry, "url", Json::Str(links[i].url.clone()));
        assert(json_entries(entry@) =~= seq![
            ("label"@, JsonVal::Str(links@[i as int].label@)),
            ("url"@, JsonVal::Str(links@[i as int].url@)),
        ]);
        let ghost before = json_vals(items@);
        push_item(&mut items, Json::Object(entry));
        assert(links@.take(i + 1).map_values(|l: NavLink| nav_view(l)).map_values(
            |l: (Seq<char>, Seq<char>)| nav_link_json(l),
        ) =~= before.push(nav_link_json(nav_view(links@[i as int]))));
    }
    assert(links@.take(links.len() as int) =~= links@);
    Json::Array(items)
}

/// The variables that every page of a site is rendered with.
pub fn make_context(
    site_name: &str,
    site_description: &Option<String>,
    logo_url: &Option<String>,
    favicon_url: &Option<String>,
    nav_links: &Vec<NavLink>,
    footer_text: &Option<String>,
    social_links: &Json,
    contact_phone: &Option<String>,
    contact_email: &Option<String>,
    contact_address: &Option<String>,
) -> (ctx: Vec<(String, Json)>)
    ensures
        json_entries(ctx@) == context_of(
            site_name@,
            *site_description,
            *logo_url,
            *favicon_url,
            nav_links@.map_values(|l: NavLink| nav_view(l)),
            *footer_text,
            social_links@,
            *contact_phone,
            *contact_email,
            *contact_address,
        ),
{
    let mut ctx: Vec<(String, Json)> = Vec::new();
    push_entry(&mut ctx, "site_name", Json::Str(String::from_str(site_name)));
    push_entry(&mut ctx, "site_description", json_text_or_null(site_description));
    push_entry(&mut ctx, "logo_url", json_text_or_null(logo_url));
    push_entry(&mut ctx, "favicon_url", json_text_or_null(favicon_url));
    push_entry(&mut ctx, "nav_links", nav_links_json(nav_links));
    push_entry(&mut ctx, "footer_text", json_text_or_null(footer_text));
    push_entry(&mut ctx, "social_links", social_links.deep_clone());
    push_entry(&mut ctx, "contact_phone", json_text_or_null(contact_phone));
    push_entry(&mut ctx, "contact_email", json_text_or_null(contact_email));
    push_entry(&mut ctx, "contact_address", json_text_or_null(contact_address));
    assert(json_entries(ctx@) =~= context_of(
        site_name@,
        *site_description,
        *logo_url,
        *favicon_url,
        nav_links@.map_values(|l: NavLink| nav_view(l)),
        *footer_text,
        social_links@,
        *contact_phone,
        *contact_email,
        *contact_address,
    ));
    ctx
}


// ---------------------------------------------------------------------------
// Pages to render
// ---------------------------------------------------------------------------

/// The template a file is rendered with.
#[derive(Clone, Copy, Debug, PartialEq, Eq, Structural)]
pub enum PageTemplate {
    Index,
    Page,
}

/// A file of the built site: its path under the output directory, its
/// template and the variables it is rendered with, in order.
pub struct OutputFile {
    pub path: String,
    pub template: PageTemplate,
    pub context: Vec<(String, Json)>,
}

/// The view of an output file.
pub open spec fn file_view(f: OutputFile) -> (Seq<char>, PageTemplate, Seq<(Seq<char>, JsonVal)>) {
    (f.path@, f.template, json_entries(f.context@))
}

/// The JSON object that lists a post on index and blog pages.
pub open spec fn post_json(p: PublishedPost, now: i64) -> JsonVal {
    JsonVal::Object(seq![
        ("title"@, JsonVal::Str(p.title@)),
        ("slug"@, JsonVal::Str(p.slug@)),
        ("content"@, JsonVal::Str(page_blocks_html(p.content@))),
        ("excerpt"@, text_or_null(p.excerpt)),
        ("featured_image"@, text_or_null(p.featured_image)),
        ("published_at"@, JsonVal::Str(post_date(p.published_at, now, day_pattern()))),
    ])
}

/// The list of the posts, in order.
pub open spec fn posts_json(posts: Seq<PublishedPost>, now: i64) -> JsonVal {
    JsonVal::Array(posts.map_values(|p: PublishedPost| post_json(p, now)))
}

/// The posts listing has one entry per post, in the posts' order, and each
/// entry carries that post's own title, slug, excerpt and featured image
/// (null only where the post has none).
pub proof fn lemma_post_listing(posts: Seq<PublishedPost>, now: i64, i: int)
    requires
        0 <= i < posts.len(),
    ensures
        posts_json(posts, now) is Array,
        posts_json(posts, now)->Array_0.len() == posts.len(),
        val_get(posts_json(posts, now)->Array_0[i], "title"@) == Some(JsonVal::Str(posts[i].title@)),
        val_get(posts_json(posts, now)->Array_0[i], "slug"@) == Some(JsonVal::Str(posts[i].slug@)),
        val_get(posts_json(posts, now)->Array_0[i], "excerpt"@) == Some(
            match posts[i].excerpt {
                Some(e) => JsonVal::Str(e@),
                None => JsonVal::Null,
            },
        ),
        val_get(posts_json(posts, now)->Array_0[i], "featured_image"@) == Some(
            match posts[i].featured_image {
                Some(f) => JsonVal::Str(f@),
                None => JsonVal::Null,
            },
        ),
{
    reveal_strlit("title");
    reveal_strlit("slug");
    reveal_strlit("content");
    reveal_strlit("excerpt");
    reveal_strlit("featured_image");
    reveal_strlit("published_at");
    reveal_with_fuel(entries_get, 7);
    let p = posts[i];
    assert(posts_json(posts, now)->Array_0[i] == post_json(p, now));
    let es = post_json(p, now)->Object_0;
    assert("slug"@ != "title"@) by {
        assert("slug"@.len() != "title"@.len());
    }
    assert("excerpt"@ != "title"@) by {
        assert("excerpt"@.len() != "title"@.len());
    }
    assert("excerpt"@ != "slug"@) by {
        assert("excerpt"@.len() != "slug"@.len());
    }
    assert("excerpt"@ != "content"@) by {
        assert("excerpt"@[0] != "content"@[0]);
    }
    assert("featured_image"@ != "title"@) by {
        assert("featured_image"@.len() != "title"@.len());
    }
    assert("featured_image"@ != "slug"@) by {
        assert("featured_image"@.len() != "slug"@.len());
    }
    assert("featured_image"@ != "content"@) by {
        assert("featured_image"@.len() != "content"@.len());
    }
    assert("featured_image"@ != "excerpt"@) by {
        assert("featured_image"@.len() != "excerpt"@.len());
    }
    assert(es.skip(1)[0] == es[1]);
    assert(es.skip(1).skip(1)[0] == es[2]);
    assert(es.skip(1).skip(1).skip(1)[0] == es[3]);
    assert(es.skip(1).skip(1).skip(1).skip(1)[0] == es[4]);
}

/// The image shown with a post: its featured image, else the first image of
/// its content.
pub open spec fn post_image(p: PublishedPost) -> JsonVal {
    match p.featured_image {
        Some(f) => JsonVal::Str(f@),
        None => match first_image(p.content@) {
            Some(u) => JsonVal::Str(u),
            None => JsonVal::Null,
        },
    }
}

/// The index file, listing the posts.
pub open spec fn index_file(ctx: Seq<(Seq<char>, JsonVal)>, posts: JsonVal) -> (Seq<char>, PageTemplate, Seq<(Seq<char>, JsonVal)>) {
    ("index.html"@, PageTemplate::Index, ctx + seq![("posts"@, posts), ("url"@, JsonVal::Str("/"@))])
}

/// The file of a post, under `blog/`.
pub open spec fn post_file(ctx: Seq<(Seq<char>, JsonVal)>, p: PublishedPost, now: i64) -> (Seq<char>, PageTemplate, Seq<(Seq<char>, JsonVal)>) {
    (
        "blog/"@ + p.slug@ + ".html"@,
        PageTemplate::Page,
        ctx + seq![
            ("title"@, JsonVal::Str(p.title@)),
            ("slug"@, JsonVal::Str(p.slug@)),
            ("content"@, JsonVal::Str(page_blocks_html(p.content@))),
            ("excerpt"@, text_or_null(p.excerpt)),
            ("featured_image"@, post_image(p)),
            ("published_at"@, JsonVal::Str(post_date(p.published_at, now, day_pattern()))),
            ("url"@, JsonVal::Str("/blog/"@ + p.slug@)),
            ("is_blog_post"@, JsonVal::Bool(true)),
        ],
    )
}

/// The file of the homepage, which replaces the index file.
pub open spec fn home_file(ctx: Seq<(Seq<char>, JsonVal)>, h: SitePage) -> (Seq<char>, PageTemplate, Seq<(Seq<char>, JsonVal)>) {
    (
        "index.html"@,
        PageTemplate::Page,
        ctx + seq![
            ("title"@, JsonVal::Str(h.title@)),
            ("slug"@, JsonVal::Str(h.slug@)),
            ("content"@, JsonVal::Str(page_blocks_html(h.content@))),
        ],
    )
}

/// The file of a page other than a homepage; the page with slug `blog` also
/// lists the posts.
pub open spec fn page_file(ctx: Seq<(Seq<char>, JsonVal)>, p: SitePage, posts: JsonVal) -> (Seq<char>, PageTemplate, Seq<(Seq<char>, JsonVal)>) {
    (
        p.slug@ + ".html"@,
        PageTemplate::Page,
        ctx + seq![
            ("title"@, JsonVal::Str(p.title@)),
            ("slug"@, JsonVal::Str(p.slug@)),
            ("content"@, JsonVal::Str(page_blocks_html(p.content@))),
            ("url"@, JsonVal::Str("/"@ + p.slug@)),
        ] + if p.slug@ == "blog"@ {
            seq![("posts"@, posts)]
        } else {
            Seq::empty()
        },
    )
}

/// The files of the pages other than homepages, in order.
pub open spec fn page_files(ctx: Seq<(Seq<char>, JsonVal)>, pages: Seq<SitePage>, posts: JsonVal) -> Seq<(Seq<char>, PageTemplate, Seq<(Seq<char>, JsonVal)>)>
    decreases pages.len(),
{
    if pages.len() == 0 {
        Seq::empty()
    } else {
        let prev = page_files(ctx, pages.drop_last(), posts);
        if !pages.last().is_homepage {
            prev.push(page_file(ctx, pages.last(), posts))
        } else {
            prev
        }
    }
}

/// The files of a built site in the order they are written: the index, the
/// posts, the homepage (over the index) and the other pages.
pub open spec fn site_files(site: SiteInfo, pages: Seq<SitePage>, posts: Seq<PublishedPost>, now: i64) -> Seq<(Seq<char>, PageTemplate, Seq<(Seq<char>, JsonVal)>)> {
    let ctx = site_context(site, nav_entries(pages, site));
    let listed = posts_json(posts, now);
    seq![index_file(ctx, listed)] + posts.map_values(|p: PublishedPost| post_file(ctx, p, now)) + (match homepage_of(pages) {
        Some(h) => seq![home_file(ctx, h)],
        None => Seq::empty(),
    }) + page_files(ctx, pages, listed)
}

fn post_data(p: &PublishedPost, now: i64) -> (j: Json)
    ensures
        j@ == post_json(*p, now),
{
    let mut es: Vec<(String, Json)> = Vec::new();
    push_entry(&mut es, "title", Json::Str(p.title.clone()));
    push_entry(&mut es, "slug", Json::Str(p.slug.clone()));
    push_entry(&mut es, "content", Json::Str(render_blocks(&p.content)));
    push_entry(&mut es, "excerpt", json_text_or_null(&p.excerpt));
    push_entry(&mut es, "featured_image", json_text_or_null(&p.featured_image));
    push_entry(&mut es, "published_at", Json::Str(format_post_date(p.published_at, now, "%Y-%m-%d")));
    assert(json_entries(es@) =~= seq![
        ("title"@, JsonVal::Str(p.title@)),
        ("slug"@, JsonVal::Str(p.slug@)),
        ("content"@, JsonVal::Str(page_blocks_html(p.content@))),
        ("excerpt"@, text_or_null(p.excerpt)),
        ("featured_image"@, text_or_null(p.featured_image)),
        ("published_at"@, JsonVal::Str(post_date(p.published_at, now, day_pattern()))),
    ]);
    Json::Object(es)
}

/// The list of the posts that index and blog pages show.
pub fn posts_data(posts: &Vec<PublishedPost>, now: i64) -> (j: Json)
    ensures
        j@ == posts_json(posts@, now),
{
    let mut items: Vec<Json> = Vec::new();
    for i in 0..posts.len()
        invariant
            json_vals(items@) == posts@.take(i as int).map_values(|p: PublishedPost| post_json(p, now)),
    {
        let ghost before = json_vals(items@);
        push_item(&mut items, post_data(&posts[i], now));
        assert(posts@.take(i + 1).map_values(|p: PublishedPost| post_json(p, now)) =~= before.push(
            post_json(posts@[i as int], now),
        ));
    }
    assert(posts@.take(posts.len() as int) =~= posts@);
    Json::Array(items)
}

fn site_context_exec(site: &SiteInfo, nav_links: &Vec<NavLink>) -> (ctx: Vec<(String, Json)>)
    ensures
        json_entries(ctx@) == site_context(*site, nav_links@.map_values(|l: NavLink| nav_view(l))),
{
    let social = match &site.social_links {
        Some(j) => j.deep_clone(),
        None => Json::Object(Vec::new()),
    };
    proof {
        let e: Seq<(String, Json)> = Seq::empty();
        assert(json_entries(e) =~= Seq::empty());
    }
    make_context(
        site.name.as_str(),
        &site.description,
        &site.logo_url,
        &site.favicon_url,
        nav_links,
        &site.footer_text,
        &social,
        &site.contact_phone,
        &site.contact_email,
        &site.contact_address,
    )
}


fn post_output(site: &SiteInfo, nav_links: &Vec<NavLink>, p: &PublishedPost, now: i64) -> (f: OutputFile)
    ensures
        file_view(f) == post_file(site_context(*site, nav_links@.map_values(|l: NavLink| nav_view(l))), *p, now),
{
    let mut ctx = site_context_exec(site, nav_links);
    let ghost base = json_entries(ctx@);
    push_entry(&mut ctx, "title", Json::Str(p.title.clone()));
    push_entry(&mut ctx, "slug", Json::Str(p.slug.clone()));
    push_entry(&mut ctx, "content", Json::Str(render_blocks(&p.content)));
    push_entry(&mut ctx, "excerpt", json_text_or_null(&p.excerpt));
    let image = match &p.featured_image {
        Some(f) => Json::Str(f.clone()),
        None => match extract_first_image(&p.content) {
            Some(u) => Json::Str(u),
            None => Json::Null,
        },
    };
    push_entry(&mut ctx, "featured_image", image);
    push_entry(&mut ctx, "published_at", Json::Str(format_post_date(p.published_at, now, "%Y-%m-%d")));
    let mut url = String::new();
    url.append("/blog/");
    url.append(p.slug.as_str());
    push_entry(&mut ctx, "url", Json::Str(url));
    push_entry(&mut ctx, "is_blog_post", Json::Bool(true));
    let mut path = String::new();
    path.append("blog/");
    path.append(p.slug.as_str());
    path.append(".html");
    let f = OutputFile { path, template: PageTemplate::Page, context: ctx };
    assert(file_view(f).2 =~= post_file(base, *p, now).2);
    f
}

fn home_output(site: &SiteInfo, nav_links: &Vec<NavLink>, h: &SitePage) -> (f: OutputFile)
    ensures
        file_view(f) == home_file(site_context(*site, nav_links@.map_values(|l: NavLink| nav_view(l))), *h),
{
    let mut ctx = site_context_exec(site, nav_links);
    let ghost base = json_entries(ctx@);
    push_entry(&mut ctx, "title", Json::Str(h.title.clone()));
    push_entry(&mut ctx, "slug", Json::Str(h.slug.clone()));
    push_entry(&mut ctx, "content", Json::Str(render_blocks(&h.content)));
    let f = OutputFile { path: String::from_str("index.html"), template: PageTemplate::Page, context: ctx };
    assert(file_view(f).2 =~= home_file(base, *h).2);
    f
}

fn page_output(site: &SiteInfo, nav_links: &Vec<NavLink>, p: &SitePage, listed: &Json) -> (f: OutputFile)
    ensures
        file_view(f) == page_file(site_context(*site, nav_links@.map_values(|l: NavLink| nav_view(l))), *p, listed@),
{
    let mut ctx = site_context_exec(site, nav_links);
    let ghost base = json_entries(ctx@);
    push_entry(&mut ctx, "title", Json::Str(p.title.clone()));
    push_entry(&mut ctx, "slug", Json::Str(p.slug.clone()));
    push_entry(&mut ctx, "content", Json::Str(render_blocks(&p.content)));
    let mut url = String::new();
    url.append("/");
    url.append(p.slug.as_str());
    push_entry(&mut ctx, "url", Json::Str(url));
    let slug = chars_of(p.slug.as_str());
    if chars_eq_str(slug.as_slice(), "blog") {
        push_entry(&mut ctx, "posts", listed.deep_clone());
    }
    let mut path = String::new();
    path.append(p.slug.as_str());
    path.append(".html");
    let f = OutputFile { path, template: PageTemplate::Page, context: ctx };
    assert(file_view(f).2 =~= page_file(base, *p, listed@).2);
    f
}

/// Everything a build of a site produces: the navigation, the files to
/// render in the order they are written, the sitemap and the RSS feed.
pub struct SiteBuild {
    pub nav_links: Vec<NavLink>,
    pub files: Vec<OutputFile>,
    pub sitemap_xml: String,
    pub feed_xml: String,
}

/// The view of a custom domain.
pub open spec fn domain_view(site: SiteInfo) -> Option<Seq<char>> {
    match site.custom_domain {
        Some(d) => Some(d@),
        None => None,
    }
}

/// What a build of `site` with `pages` and published `posts` at time `now`
/// produces.
pub open spec fn is_site_build(b: SiteBuild, site: SiteInfo, pages: Seq<SitePage>, posts: Seq<PublishedPost>, now: i64) -> bool {
    &&& b.nav_links@.map_values(|l: NavLink| nav_view(l)) == nav_entries(pages, site)
    &&& b.files@.map_values(|f: OutputFile| file_view(f)) == site_files(site, pages, posts, now)
    &&& b.sitemap_xml@ == sitemap_text(site_url_of(domain_view(site)), pages, posts)
    &&& b.feed_xml@ == feed_text(site, site_url_of(domain_view(site)), posts, now)
}

/// Plans the static build of a site with its pages (in sort order) and its
/// published posts (newest first) at time `now`, in seconds since the Unix
/// epoch.
pub fn plan_site_build(site: &SiteInfo, pages: &Vec<SitePage>, posts: &Vec<PublishedPost>, now: i64) -> (b: SiteBuild)
    ensures
        is_site_build(b, *site, pages@, posts@, now),
{
    let site_url = site_url(&site.custom_domain);
    let nav_links = build_nav_links(pages, site);
    let ghost nav = nav_links@.map_values(|l: NavLink| nav_view(l));
    let ghost ctx = site_context(*site, nav);
    let listed = posts_data(posts, now);
    let mut files: Vec<OutputFile> = Vec::new();

    let mut index_ctx = site_context_exec(site, &nav_links);
    push_entry(&mut index_ctx, "posts", listed.deep_clone());
    push_entry(&mut index_ctx, "url", Json::Str(String::from_str("/")));
    let index = OutputFile { path: String::from_str("index.html"), template: PageTemplate::Index, context: index_ctx };
    assert(file_view(index).2 =~= index_file(ctx, listed@).2);
    files.push(index);
    let ghost head = seq![index_file(ctx, listed@)];
    assert(files@.map_values(|f: OutputFile| file_view(f)) =~= head);

    for i in 0..posts.len()
        invariant
            nav == nav_links@.map_values(|l: NavLink| nav_view(l)),
            ctx == site_context(*site, nav),
            files@.map_values(|f: OutputFile| file_view(f)) == head + posts@.take(i as int).map_values(
                |p: PublishedPost| post_file(ctx, p, now),
            ),
    {
        let ghost before = files@.map_values(|f: OutputFile| file_view(f));
        let f = post_output(site, &nav_links, &posts[i], now);
        files.push(f);
        assert(files@.map_values(|f: OutputFile| file_view(f)) =~= before.push(file_view(f)));
        assert(posts@.take(i + 1).map_values(|p: PublishedPost| post_file(ctx, p, now)) =~= posts@.take(
            i as int,
        ).map_values(|p: PublishedPost| post_file(ctx, p, now)).push(post_file(ctx, posts@[i as int], now)));
    }
    assert(posts@.take(posts.len() as int) =~= posts@);
    let ghost with_posts = files@.map_values(|f: OutputFile| file_view(f));

    match homepage_index(pages) {
        Some(h) => {
            let f = home_output(site, &nav_links, &pages[h]);
            files.push(f);
            assert(files@.map_values(|f: OutputFile| file_view(f)) =~= with_posts.push(file_view(f)));
        },
        None => {},
    }
    let ghost with_home = files@.map_values(|f: OutputFile| file_view(f));
    assert(with_home == with_posts + (match homepage_of(pages@) {
        Some(h) => seq![home_file(ctx, h)],
        None => Seq::<(Seq<char>, PageTemplate, Seq<(Seq<char>, JsonVal)>)>::empty(),
    }));

    assert(pages@.take(0) =~= Seq::<SitePage>::empty());
    for i in 0..pages.len()
        invariant
            nav == nav_links@.map_values(|l: NavLink| nav_view(l)),
            ctx == site_context(*site, nav),
            files@.map_values(|f: OutputFile| file_view(f)) == with_home + page_files(ctx, pages@.take(i as int), listed@),
    {
        assert(pages@.take(i + 1).drop_last() =~= pages@.take(i as int));
        assert(pages@.take(i + 1).last() == pages@[i as int]);
        if !pages[i].is_homepage {
            let ghost before = files@.map_values(|f: OutputFile| file_view(f));
            let f = page_output(site, &nav_links, &pages[i], &listed);
            files.push(f);
            assert(files@.map_values(|f: OutputFile| file_view(f)) =~= before.push(file_view(f)));
        }
    }
    assert(pages@.take(pages.len() as int) =~= pages@);
    assert(files@.map_values(|f: OutputFile| file_view(f)) =~= site_files(*site, pages@, posts@, now));

    let sitemap = sitemap_xml(site_url.as_str(), pages, posts);
    let feed = feed_xml(site, site_url.as_str(), posts, now);
    SiteBuild { nav_links, files, sitemap_xml: sitemap, feed_xml: feed }
}


/// Calls `chrono::Utc::now` and returns the whole seconds since the Unix
/// epoch (`DateTime::timestamp`). Nothing is said of the value: it is what
/// the clock reads.
#[verifier::external_body]
fn now_secs() -> (t: i64) {
    chrono::Utc::now().timestamp()
}

/// Plans the static build of a site at the present time: the plan of
/// [`plan_site_build`] for the time the clock gave.
pub fn build_site(site: &SiteInfo, pages: &Vec<SitePage>, posts: &Vec<PublishedPost>) -> (b: SiteBuild)
    ensures
        exists|now: i64| is_site_build(b, *site, pages@, posts@, now),
{
    let now = now_secs();
    plan_site_build(site, pages, posts, now)
}


// ---------------------------------------------------------------------------
// Properties of a build
// ---------------------------------------------------------------------------

/// A site with a blog gets exactly one more navigation link than its pages
/// give, the blog link, at the position its sort order names (counted from
/// 1, clamped to the end; 0 puts it first); a site without a blog gets the
/// links of its pages only.
pub proof fn lemma_blog_link(pages: Seq<SitePage>, site: SiteInfo)
    ensures
        has_blog(homepage_type_of(site)) ==> {
            let nav = nav_entries(pages, site);
            let pos = blog_position(site.blog_sort_order, nav_base(pages).len());
            &&& 0 <= pos <= nav_base(pages).len()
            &&& nav.len() == nav_base(pages).len() + 1
            &&& nav[pos] == ("Blog"@, blog_path_of(site))
            &&& nav.take(pos) == nav_base(pages).take(pos)
            &&& nav.skip(pos + 1) == nav_base(pages).skip(pos)
            &&& nav.remove(pos) == nav_base(pages)
        },
        !has_blog(homepage_type_of(site)) ==> nav_entries(pages, site) == nav_base(pages),
{
    if has_blog(homepage_type_of(site)) {
        let base = nav_base(pages);
        let pos = blog_position(site.blog_sort_order, base.len());
        let nav = nav_entries(pages, site);
        assert(nav.take(pos) =~= base.take(pos));
        assert(nav.skip(pos + 1) =~= base.skip(pos));
        assert(nav.remove(pos) =~= base);
    }
}

/// The navigation of the pages, read from the pages in their stored order:
/// the first homepage under `/` when it is shown, then every page that is
/// not a homepage and is shown, under `/{slug}`.
pub proof fn lemma_nav_from_pages(pages: Seq<SitePage>)
    ensures
        page_nav_entries(pages) == pages.filter(|p: SitePage| !p.is_homepage && p.show_in_nav).map_values(
            |p: SitePage| (p.title@, "/"@ + p.slug@),
        ),
    decreases pages.len(),
{
    let pred = |p: SitePage| !p.is_homepage && p.show_in_nav;
    let f = |p: SitePage| (p.title@, "/"@ + p.slug@);
    reveal(Seq::filter);
    if pages.len() > 0 {
        lemma_nav_from_pages(pages.drop_last());
        let prev = pages.drop_last().filter(pred);
        assert(pages.filter(pred) == (if pred(pages.last()) { prev.push(pages.last()) } else { prev }));
        if pred(pages.last()) {
            assert(prev.push(pages.last()).map_values(f) =~= prev.map_values(f).push(f(pages.last())));
        }
    } else {
        assert(pages.filter(pred) =~= Seq::<SitePage>::empty());
        assert(pages.filter(pred).map_values(f) =~= Seq::<(Seq<char>, Seq<char>)>::empty());
    }
}

/// The sitemap lists, after the site root and the blog, one entry per page
/// that is neither a homepage nor the page `blog`, in order, then one entry
/// per post, in order; the feed has one item per post, in order.
pub proof fn lemma_sitemap_and_feed(url: Seq<char>, pages: Seq<SitePage>, posts: Seq<PublishedPost>, now: i64)
    ensures
        sitemap_page_entries(url, pages) == pages.filter(|p: SitePage| !p.is_homepage && p.slug@ != "blog"@).map_values(
            |p: SitePage| sitemap_page_entry(url, p.slug@),
        ),
        sitemap_post_entries(url, posts).len() == posts.len(),
        forall|i: int| 0 <= i < posts.len() ==> #[trigger] sitemap_post_entries(url, posts)[i] == sitemap_post_entry(url, posts[i].slug@),
        feed_items(url, posts, now).len() == posts.len(),
        forall|i: int| 0 <= i < posts.len() ==> #[trigger] feed_items(url, posts, now)[i] == feed_item(url, posts[i], now),
    decreases pages.len(),
{
    let pred = |p: SitePage| !p.is_homepage && p.slug@ != "blog"@;
    let f = |p: SitePage| sitemap_page_entry(url, p.slug@);
    reveal(Seq::filter);
    if pages.len() > 0 {
        lemma_sitemap_and_feed(url, pages.drop_last(), posts, now);
        let prev = pages.drop_last().filter(pred);
        assert(pages.filter(pred) == (if pred(pages.last()) { prev.push(pages.last()) } else { prev }));
        if pred(pages.last()) {
            assert(prev.push(pages.last()).map_values(f) =~= prev.map_values(f).push(f(pages.last())));
        }
    } else {
        assert(pages.filter(pred) =~= Seq::<SitePage>::empty());
        assert(pages.filter(pred).map_values(f) =~= Seq::<Seq<char>>::empty());
    }
}

/// Every published post gets its own page, `blog/{slug}.html`, rendered
/// with the page template, written right after the index and in the order
/// of the posts.
pub proof fn lemma_post_pages(site: SiteInfo, pages: Seq<SitePage>, posts: Seq<PublishedPost>, now: i64, i: int)
    requires
        0 <= i < posts.len(),
    ensures
        site_files(site, pages, posts, now)[i + 1] == post_file(site_context(site, nav_entries(pages, site)), posts[i], now),
        site_files(site, pages, posts, now)[i + 1].0 == "blog/"@ + posts[i].slug@ + ".html"@,
        site_files(site, pages, posts, now)[i + 1].1 == PageTemplate::Page,
        site_files(site, pages, posts, now)[0].0 == "index.html"@,
{
}


// ---------------------------------------------------------------------------
// Rendering
// ---------------------------------------------------------------------------

/// What minijinja renders for the template named `name` in an environment
/// holding the site templates `base.html`, `page.html` and `index.html`,
/// with the variables of the JSON object `context`: the page, or the text
/// of minijinja's error.
pub uninterp spec fn rendered(
    base: Seq<char>,
    page: Seq<char>,
    index: Seq<char>,
    name: Seq<char>,
    context: Seq<char>,
) -> Result<Seq<char>, Seq<char>>;

/// Parses `context` with `serde_json::from_str`, builds a
/// `minijinja::Environment` with the three templates
/// (`Environment::add_template`) and renders the template `name` with
/// `Template::render`. The result, an error's message included, is the
/// named one for these arguments; nothing is said of how minijinja renders.
#[verifier::external_body]
fn render_template(base: &str, page: &str, index: &str, name: &str, context: &str) -> (r: Result<String, String>)
    ensures
        rendered(base@, page@, index@, name@, context@) == (match r {
            Ok(t) => Ok::<Seq<char>, Seq<char>>(t@),
            Err(e) => Err::<Seq<char>, Seq<char>>(e@),
        }),
{
    let vars: serde_json::Value = match serde_json::from_str(context) {
        Ok(v) => v,
        Err(e) => return Err(e.to_string()),
    };
    let mut env = minijinja::Environment::new();
    if let Err(e) = env.add_template("base.html", base) { return Err(e.to_string()) }
    if let Err(e) = env.add_template("page.html", page) { return Err(e.to_string()) }
    if let Err(e) = env.add_template("index.html", index) { return Err(e.to_string()) }
    match env.get_template(name) {
        Ok(t) => match t.render(&vars) { Ok(html) => Ok(html), Err(e) => Err(e.to_string()) },
        Err(e) => Err(e.to_string()),
    }
}

/// The template a file is rendered with.
pub open spec fn template_name(t: PageTemplate) -> Seq<char> {
    match t {
        PageTemplate::Index => "index.html"@,
        PageTemplate::Page => "page.html"@,
    }
}

/// What a planned file renders to with the site templates: its template
/// with its variables as one JSON object.
pub open spec fn file_render(
    base: Seq<char>,
    page: Seq<char>,
    index: Seq<char>,
    f: (Seq<char>, PageTemplate, Seq<(Seq<char>, JsonVal)>),
) -> Result<Seq<char>, Seq<char>> {
    rendered(base, page, index, template_name(f.1), json_text(JsonVal::Object(f.2)))
}

/// The rendered pages of a site, in the order they are written, up to the
/// first page that fails to render, and that failure.
pub struct RenderedSite {
    pub pages: Vec<(String, String)>,
    pub error: Option<String>,
}

/// Renders the planned files of a build with the site templates, in order,
/// stopping at the first failure: every rendered page is its file's path
/// with what its template renders to, and the error, when there is one, is
/// the failure of the file right after them.
pub fn render_site(base: &str, page: &str, index: &str, plan: &SiteBuild) -> (r: RenderedSite)
    ensures
        r.pages@.len() <= plan.files@.len(),
        forall|i: int|
            0 <= i < r.pages@.len() ==> (#[trigger] r.pages@[i]).0@ == plan.files@[i].path@ && file_render(
                base@,
                page@,
                index@,
                file_view(plan.files@[i]),
            ) == Ok::<Seq<char>, Seq<char>>(r.pages@[i].1@),
        r.error is None <==> r.pages@.len() == plan.files@.len(),
        r.error matches Some(e) ==> file_render(base@, page@, index@, file_view(plan.files@[r.pages@.len() as int]))
            == Err::<Seq<char>, Seq<char>>(e@),
{
    let mut pages: Vec<(String, String)> = Vec::new();
    for i in 0..plan.files.len()
        invariant
            pages@.len() == i,
            forall|k: int|
                0 <= k < i ==> (#[trigger] pages@[k]).0@ == plan.files@[k].path@ && file_render(
                    base@,
                    page@,
                    index@,
                    file_view(plan.files@[k]),
                ) == Ok::<Seq<char>, Seq<char>>(pages@[k].1@),
    {
        let file = &plan.files[i];
        let context = object_text(&file.context);
        let name = match file.template {
            PageTemplate::Index => "index.html",
            PageTemplate::Page => "page.html",
        };
        match render_template(base, page, index, name, context.as_str()) {
            Ok(html) => {
                pages.push((file.path.clone(), html));
            },
            Err(e) => {
                return RenderedSite { pages, error: Some(e) };
            },
        }
    }
    RenderedSite { pages, error: None }
}

}
