use blog_platform::json::Json;
use blog_platform::json_text::object_text;
use blog_platform::site::render_site;
use blog_platform::site::{
    build_nav_links, build_site, feed_xml, format_post_date, make_context, plan_site_build, posts_data, site_url,
    sitemap_xml, NavLink, PageTemplate, PublishedPost, SiteInfo, SitePage,
};

fn s(t: &str) -> Json {
    Json::Str(t.to_string())
}

fn obj(entries: Vec<(&str, Json)>) -> Json {
    Json::Object(entries.into_iter().map(|(k, v)| (k.to_string(), v)).collect())
}

fn page(title: &str, slug: &str, home: bool, nav: bool, order: i32) -> SitePage {
    SitePage {
        title: title.to_string(),
        slug: slug.to_string(),
        content: Json::Array(vec![obj(vec![("block_type", s("paragraph")), ("content", obj(vec![("text", s(title))]))])]),
        is_homepage: home,
        show_in_nav: nav,
        sort_order: order,
    }
}

fn post(title: &str, slug: &str, at: Option<i64>) -> PublishedPost {
    PublishedPost {
        title: title.to_string(),
        slug: slug.to_string(),
        content: Json::Array(vec![obj(vec![
            ("block_type", s("image")),
            ("content", obj(vec![("url", s("/media/p.png"))])),
        ])]),
        excerpt: Some(format!("About {}", title)),
        featured_image: None,
        published_at: at,
    }
}

fn site(homepage_type: Option<&str>, order: i32, domain: Option<&str>) -> SiteInfo {
    SiteInfo {
        name: "My Blog".to_string(),
        description: None,
        logo_url: None,
        favicon_url: None,
        footer_text: Some("Footer".to_string()),
        social_links: None,
        contact_phone: None,
        contact_email: Some("me@x.org".to_string()),
        contact_address: None,
        custom_domain: domain.map(|d| d.to_string()),
        homepage_type: homepage_type.map(|t| t.to_string()),
        blog_path: None,
        blog_sort_order: order,
    }
}

fn standard_pages() -> Vec<SitePage> {
    vec![
        page("Home", "home", true, true, 0),
        page("About", "about", false, true, 1),
        page("Secret", "secret", false, false, 2),
        page("Contact", "contact", false, true, 3),
    ]
}

fn labels(links: &[NavLink]) -> Vec<(String, String)> {
    links.iter().map(|l| (l.label.clone(), l.url.clone())).collect()
}

fn pair(a: &str, b: &str) -> (String, String) {
    (a.to_string(), b.to_string())
}

#[test]
fn site_url_forms() {
    assert_eq!(site_url(&Some("blog.example.com".to_string())), "https://blog.example.com");
    assert_eq!(site_url(&Some("http://b.example".to_string())), "http://b.example");
    assert_eq!(site_url(&None), "https://example.com");
}

#[test]
fn nav_places_blog_at_its_sort_order() {
    let links = build_nav_links(&standard_pages(), &site(None, 2, None));
    assert_eq!(
        labels(&links),
        vec![pair("Home", "/"), pair("Blog", "/blog"), pair("About", "/about"), pair("Contact", "/contact")]
    );
}

#[test]
fn nav_blog_first_last_and_clamped() {
    let first = build_nav_links(&standard_pages(), &site(Some("blog"), 0, None));
    assert_eq!(first[0].label, "Blog");
    let last = build_nav_links(&standard_pages(), &site(Some("both"), 99, None));
    assert_eq!(last[3].label, "Blog");
    let negative = build_nav_links(&standard_pages(), &site(Some("both"), -1, None));
    assert_eq!(negative.len(), 4);
    assert_eq!(negative[3].label, "Blog");
}

#[test]
fn nav_without_blog() {
    let links = build_nav_links(&standard_pages(), &site(Some("pages"), 1, None));
    assert_eq!(labels(&links), vec![pair("Home", "/"), pair("About", "/about"), pair("Contact", "/contact")]);
}

#[test]
fn nav_hidden_homepage_and_custom_blog_path() {
    let mut pages = standard_pages();
    pages[0].show_in_nav = false;
    let mut st = site(None, 1, None);
    st.blog_path = Some("/news".to_string());
    let links = build_nav_links(&pages, &st);
    assert_eq!(labels(&links), vec![pair("Blog", "/news"), pair("About", "/about"), pair("Contact", "/contact")]);
}

#[test]
fn dates_in_both_patterns() {
    assert_eq!(format_post_date(Some(1700000000), 0, "%Y-%m-%d"), "2023-11-14");
    assert_eq!(
        format_post_date(Some(1700000000), 0, "%a, %d %b %Y %H:%M:%S +0000"),
        "Tue, 14 Nov 2023 22:13:20 +0000"
    );
    assert_eq!(format_post_date(None, 0, "%Y-%m-%d"), "1970-01-01");
    assert_eq!(format_post_date(Some(i64::MAX), 0, "%Y-%m-%d"), "");
}

#[test]
fn sitemap_exact() {
    let pages = vec![page("Home", "home", true, true, 0), page("About", "about", false, true, 1), page("Blog", "blog", false, true, 2)];
    let posts = vec![post("First", "first", Some(0))];
    assert_eq!(
        sitemap_xml("https://x.org", &pages, &posts),
        "<?xml version=\"1.0\" encoding=\"UTF-8\"?>\n<urlset xmlns=\"http://www.sitemaps.org/schemas/sitemap/0.9\">\n<url>\n    <loc>https://x.org/</loc>\n    <changefreq>daily</changefreq>\n    <priority>1.0</priority>\n</url>\n<url>\n    <loc>https://x.org/blog</loc>\n    <changefreq>daily</changefreq>\n    <priority>0.9</priority>\n</url>\n<url>\n    <loc>https://x.org/about</loc>\n    <changefreq>monthly</changefreq>\n    <priority>0.6</priority>\n</url>\n<url>\n    <loc>https://x.org/blog/first</loc>\n    <changefreq>weekly</changefreq>\n    <priority>0.8</priority>\n</url>\n</urlset>"
    );
}

#[test]
fn feed_exact() {
    let posts = vec![post("First", "first", Some(1700000000)), post("Second", "second", None)];
    let st = site(None, 1, None);
    let xml = feed_xml(&st, "https://x.org", &posts, 0);
    assert_eq!(
        xml,
        "<?xml version=\"1.0\" encoding=\"UTF-8\"?>\n<rss version=\"2.0\" xmlns:atom=\"http://www.w3.org/2005/Atom\">\n<channel>\n    <title>My Blog</title>\n    <link>https://x.org</link>\n    <description>My Blog</description>\n    <language>en-us</language>\n    <lastBuildDate>Thu, 01 Jan 1970 00:00:00 +0000</lastBuildDate>\n    <atom:link href=\"https://x.org/feed.xml\" rel=\"self\" type=\"application/rss+xml\"/>\n<item>\n        <title><![CDATA[First]]></title>\n        <link>https://x.org/blog/first</link>\n        <guid isPermaLink=\"true\">https://x.org/blog/first</guid>\n        <pubDate>Tue, 14 Nov 2023 22:13:20 +0000</pubDate>\n        <description><![CDATA[About First]]></description>\n    </item>\n<item>\n        <title><![CDATA[Second]]></title>\n        <link>https://x.org/blog/second</link>\n        <guid isPermaLink=\"true\">https://x.org/blog/second</guid>\n        <pubDate>Thu, 01 Jan 1970 00:00:00 +0000</pubDate>\n        <description><![CDATA[About Second]]></description>\n    </item>\n</channel>\n</rss>"
    );
}

#[test]
fn feed_uses_description_when_given() {
    let mut st = site(None, 1, None);
    st.description = Some("Notes".to_string());
    let xml = feed_xml(&st, "https://x.org", &vec![], 0);
    assert!(xml.contains("<description>Notes</description>"));
}

fn entry<'a>(ctx: &'a [(String, Json)], key: &str) -> Option<&'a Json> {
    ctx.iter().find(|(k, _)| k == key).map(|(_, v)| v)
}

fn text_of(j: Option<&Json>) -> Option<String> {
    match j {
        Some(Json::Str(t)) => Some(t.clone()),
        _ => None,
    }
}

#[test]
fn context_has_site_variables() {
    let links = vec![NavLink { label: "Home".to_string(), url: "/".to_string() }];
    let ctx = make_context("S", &None, &Some("/logo.png".to_string()), &None, &links, &None, &Json::Null, &None, &None, &None);
    let keys: Vec<&str> = ctx.iter().map(|(k, _)| k.as_str()).collect();
    assert_eq!(
        keys,
        vec![
            "site_name", "site_description", "logo_url", "favicon_url", "nav_links", "footer_text", "social_links",
            "contact_phone", "contact_email", "contact_address"
        ]
    );
    assert_eq!(text_of(entry(&ctx, "site_name")), Some("S".to_string()));
    assert!(matches!(entry(&ctx, "site_description"), Some(Json::Null)));
    assert_eq!(text_of(entry(&ctx, "logo_url")), Some("/logo.png".to_string()));
    match entry(&ctx, "nav_links") {
        Some(Json::Array(items)) => assert_eq!(items.len(), 1),
        _ => panic!("nav_links"),
    }
}

#[test]
fn posts_data_lists_posts_with_dates() {
    let posts = vec![post("First", "first", Some(1700000000))];
    match posts_data(&posts, 0) {
        Json::Array(items) => {
            assert_eq!(items.len(), 1);
            match &items[0] {
                Json::Object(es) => {
                    assert_eq!(text_of(entry(es, "published_at")), Some("2023-11-14".to_string()));
                    assert_eq!(text_of(entry(es, "slug")), Some("first".to_string()));
                    assert!(matches!(entry(es, "featured_image"), Some(Json::Null)));
                },
                _ => panic!("post"),
            }
        },
        _ => panic!("list"),
    }
}

#[test]
fn plan_writes_index_posts_home_and_pages() {
    let mut pages = standard_pages();
    pages.push(page("Blog", "blog", false, false, 4));
    let posts = vec![post("First", "first", Some(1700000000)), post("Second", "second", None)];
    let b = plan_site_build(&site(None, 1, Some("x.org")), &pages, &posts, 0);
    let paths: Vec<&str> = b.files.iter().map(|f| f.path.as_str()).collect();
    assert_eq!(
        paths,
        vec!["index.html", "blog/first.html", "blog/second.html", "index.html", "about.html", "secret.html", "contact.html", "blog.html"]
    );
    assert_eq!(b.files[0].template, PageTemplate::Index);
    assert!(b.files[1..].iter().all(|f| f.template == PageTemplate::Page));
    // a post without a featured image shows the first image of its content
    assert_eq!(text_of(entry(&b.files[1].context, "featured_image")), Some("/media/p.png".to_string()));
    assert_eq!(text_of(entry(&b.files[1].context, "url")), Some("/blog/first".to_string()));
    assert!(matches!(entry(&b.files[1].context, "is_blog_post"), Some(Json::Bool(true))));
    // only the blog page lists the posts
    assert!(entry(&b.files[7].context, "posts").is_some());
    assert!(entry(&b.files[4].context, "posts").is_none());
    assert_eq!(text_of(entry(&b.files[3].context, "title")), Some("Home".to_string()));
    assert!(b.sitemap_xml.contains("<loc>https://x.org/about</loc>"));
    assert!(!b.sitemap_xml.contains("<loc>https://x.org/blog</loc>\n    <changefreq>monthly"));
    assert!(b.feed_xml.contains("<link>https://x.org/blog/second</link>"));
    assert_eq!(b.nav_links.len(), 4);
}

#[test]
fn build_at_present_time_plans_the_same_files() {
    let pages = standard_pages();
    let posts = vec![post("First", "first", Some(1700000000))];
    let b = build_site(&site(None, 1, None), &pages, &posts);
    assert_eq!(b.files.len(), 1 + 1 + 1 + 3);
    assert!(b.feed_xml.contains("<pubDate>Tue, 14 Nov 2023 22:13:20 +0000</pubDate>"));
}

#[test]
fn object_text_is_json() {
    let es = vec![
        ("a".to_string(), s("x\"y\\\n")),
        ("n".to_string(), Json::Number(Some(-3))),
        ("b".to_string(), Json::Array(vec![Json::Bool(true), Json::Null, Json::Number(None)])),
        ("o".to_string(), obj(vec![])),
    ];
    assert_eq!(object_text(&es), "{\"a\":\"x\\\"y\\\\\\u000a\",\"n\":-3,\"b\":[true,null,null],\"o\":{}}");
}

const BASE: &str = "<html>{{ site_name }}|{% block body %}{% endblock %}</html>";
const PAGE: &str = "{% extends \"base.html\" %}{% block body %}<h1>{{ title }}</h1>{{ content|safe }}{% endblock %}";
const INDEX: &str = "{% extends \"base.html\" %}{% block body %}{% for p in posts %}[{{ p.title }}]{% endfor %}{% endblock %}";

#[test]
fn render_site_renders_every_file() {
    let pages = vec![page("About", "about", false, true, 1)];
    let posts = vec![post("First", "first", Some(0))];
    let plan = plan_site_build(&site(None, 1, None), &pages, &posts, 0);
    let r = render_site(BASE, PAGE, INDEX, &plan);
    assert!(r.error.is_none());
    let paths: Vec<&str> = r.pages.iter().map(|(p, _)| p.as_str()).collect();
    assert_eq!(paths, vec!["index.html", "blog/first.html", "about.html"]);
    assert_eq!(r.pages[0].1, "<html>My Blog|[First]</html>");
    assert_eq!(
        r.pages[1].1,
        "<html>My Blog|<h1>First</h1><figure><img src=\"/media/p.png\" alt=\"\"><figcaption></figcaption></figure></html>"
    );
    assert_eq!(r.pages[2].1, "<html>My Blog|<h1>About</h1><p>About</p></html>");
}

#[test]
fn render_site_stops_at_a_broken_template() {
    let plan = plan_site_build(&site(None, 1, None), &vec![], &vec![], 0);
    let r = render_site(BASE, "{% if %}", INDEX, &plan);
    assert!(r.pages.is_empty());
    assert!(r.error.is_some());
}
