use blog_platform::json::Json;
use blog_platform::render::{
    make_error, make_response, render_blocks, render_contact_info, render_footer, render_header, render_nav_links,
    render_social_links, SiteSettings,
};

fn s(t: &str) -> Json {
    Json::Str(t.to_string())
}

fn obj(entries: Vec<(&str, Json)>) -> Json {
    Json::Object(entries.into_iter().map(|(k, v)| (k.to_string(), v)).collect())
}

fn link(label: &str, url: &str) -> Json {
    obj(vec![("label", s(label)), ("url", s(url))])
}

fn block(kind: &str, content: Json) -> Json {
    obj(vec![("block_type", s(kind)), ("content", content)])
}

fn settings(logo: &str, footer: &str, email: &str, phone: &str, address: &str) -> SiteSettings {
    SiteSettings {
        logo_url: logo.to_string(),
        nav_links: Json::Null,
        footer_text: footer.to_string(),
        social_links: Json::Null,
        contact_email: email.to_string(),
        contact_phone: phone.to_string(),
        contact_address: address.to_string(),
    }
}

#[test]
fn test_render_nav_links_with_valid_links() {
    let nav_links = Json::Array(vec![link("Home", "/"), link("About", "/about"), link("Blog", "/blog")]);

    let result = render_nav_links(&nav_links, "/mysite");

    assert!(result.contains("href=\"/mysite/\""));
    assert!(result.contains("Home"));
    assert!(result.contains("href=\"/mysite/about\""));
    assert!(result.contains("About"));
    assert!(result.contains("href=\"/mysite/blog\""));
    assert!(result.contains("Blog"));
}

#[test]
fn test_render_nav_links_empty_array() {
    let nav_links = Json::Array(vec![]);
    let result = render_nav_links(&nav_links, "/mysite");
    assert!(result.is_empty());
}

#[test]
fn test_render_nav_links_null() {
    let nav_links = Json::Null;
    let result = render_nav_links(&nav_links, "/mysite");
    assert!(result.is_empty());
}

#[test]
fn test_render_nav_links_external_url() {
    let nav_links = Json::Array(vec![link("Google", "https://google.com")]);

    let result = render_nav_links(&nav_links, "/mysite");
    assert!(result.contains("href=\"https://google.com\""));
}

#[test]
fn test_render_social_links_valid() {
    let social_links = obj(vec![
        ("github", s("https://github.com/test")),
        ("x", s("https://x.com/test")),
        ("youtube", s("https://youtube.com/test")),
    ]);

    let result = render_social_links(&social_links);

    assert!(result.contains("github.com"));
    assert!(result.contains("fa-github"));
    assert!(result.contains("fa-x-twitter"));
    assert!(result.contains("fa-youtube"));
}

#[test]
fn test_render_social_links_empty_values() {
    let social_links = obj(vec![("github", s("")), ("x", s("https://x.com/test"))]);

    let result = render_social_links(&social_links);

    assert!(!result.contains("github"));
    assert!(result.contains("x.com"));
}

#[test]
fn test_render_social_links_null() {
    let social_links = Json::Null;
    let result = render_social_links(&social_links);
    assert!(result.is_empty());
}

#[test]
fn test_render_contact_info_email_and_phone() {
    let settings = settings("", "", "test@example.com", "555-1234", "");

    let result = render_contact_info(&settings);

    assert!(result.contains("555-1234"));
    assert!(result.contains("test@example.com"));
    assert!(result.contains("mailto:test@example.com"));
}

#[test]
fn test_render_contact_info_all_empty() {
    let settings = settings("", "", "", "", "");

    let result = render_contact_info(&settings);
    assert!(result.is_empty());
}

#[test]
fn test_render_blocks_heading() {
    let blocks = Json::Array(vec![block("heading", obj(vec![("text", s("Hello World"))]))]);

    let result = render_blocks(&blocks);

    assert!(result.contains("<h2"));
    assert!(result.contains("Hello World"));
    assert!(result.contains("</h2>"));
}

#[test]
fn test_render_blocks_paragraph() {
    let blocks = Json::Array(vec![block("paragraph", obj(vec![("text", s("This is a paragraph"))]))]);

    let result = render_blocks(&blocks);

    assert!(result.contains("<p"));
    assert!(result.contains("This is a paragraph"));
    assert!(result.contains("</p>"));
}

#[test]
fn test_render_blocks_image() {
    let blocks = Json::Array(vec![block(
        "image",
        obj(vec![("url", s("https://example.com/img.jpg")), ("alt", s("Test image"))]),
    )]);

    let result = render_blocks(&blocks);

    assert!(result.contains("img.jpg"));
    assert!(result.contains("Test image"));
}

#[test]
fn test_render_blocks_image_empty_url() {
    let blocks = Json::Array(vec![block("image", obj(vec![("url", s("")), ("alt", s("Test"))]))]);

    let result = render_blocks(&blocks);
    assert!(result.is_empty());
}

#[test]
fn test_render_blocks_link() {
    let blocks = Json::Array(vec![block(
        "link",
        obj(vec![("text", s("Click here")), ("url", s("https://example.com"))]),
    )]);

    let result = render_blocks(&blocks);

    assert!(result.contains("href=\"https://example.com\""));
    assert!(result.contains("Click here"));
}

#[test]
fn test_render_blocks_hero() {
    let blocks = Json::Array(vec![block(
        "hero",
        obj(vec![
            ("title", s("Welcome")),
            ("subtitle", s("Best site ever")),
            ("ctaText", s("Get Started")),
            ("ctaLink", s("/signup")),
        ]),
    )]);

    let result = render_blocks(&blocks);

    assert!(result.contains("Welcome"));
    assert!(result.contains("Best site ever"));
    assert!(result.contains("Get Started"));
}

#[test]
fn test_render_blocks_video_youtube() {
    let blocks = Json::Array(vec![block(
        "video",
        obj(vec![("url", s("https://youtube.com/watch?v=abc123")), ("caption", s("My video"))]),
    )]);

    let result = render_blocks(&blocks);

    assert!(result.contains("youtube.com/embed/abc123"));
    assert!(result.contains("My video"));
}

#[test]
fn test_render_blocks_columns() {
    let blocks = Json::Array(vec![block(
        "columns",
        obj(vec![("left", s("Left content")), ("right", s("Right content"))]),
    )]);

    let result = render_blocks(&blocks);

    assert!(result.contains("Left content"));
    assert!(result.contains("Right content"));
    assert!(result.contains("grid-cols-2"));
}

#[test]
fn test_render_blocks_unknown_type() {
    let blocks = Json::Array(vec![block("unknown_type", obj(vec![("text", s("Should not render"))]))]);

    let result = render_blocks(&blocks);
    assert!(result.is_empty());
}

#[test]
fn test_render_blocks_null_content() {
    let blocks = Json::Null;
    let result = render_blocks(&blocks);
    assert!(result.is_empty());
}

#[test]
fn test_render_header_with_logo() {
    let settings = settings("https://example.com/logo.png", "", "", "", "");

    let result = render_header(&settings, "My Site", "my-site");

    assert!(result.contains("logo.png"));
    assert!(result.contains("My Site"));
    assert!(result.contains("/site/my-site"));
}

#[test]
fn test_render_header_without_logo() {
    let settings = settings("", "", "", "", "");

    let result = render_header(&settings, "My Site", "my-site");

    assert!(result.contains("My Site"));
    assert!(result.contains("<header"));
}

#[test]
fn test_render_footer_with_contact() {
    let settings = settings("", "Copyright 2024", "test@example.com", "", "");

    let result = render_footer(&settings);

    assert!(result.contains("test@example.com"));
    assert!(result.contains("Copyright 2024"));
    assert!(result.contains("<footer"));
}

#[test]
fn test_make_response() {
    let html = "<html><body>Test</body></html>".to_string();
    let r = make_response(html);

    assert_eq!(r.status, 200);
    assert_eq!(r.body, "<html><body>Test</body></html>");
    assert_eq!(r.content_type, "text/html");
}

#[test]
fn test_make_error() {
    let r = make_error(404, "Not found");

    assert_eq!(r.status, 404);
    assert_eq!(r.body, "Not found");
    assert_eq!(r.content_type, "text/plain");
}

// Exact outputs and the laws on concrete values.

#[test]
fn nav_link_relative_and_absolute_exact() {
    let nav_links = Json::Array(vec![link("Home", "/"), link("Ext", "https://e.com")]);
    assert_eq!(
        render_nav_links(&nav_links, "/site/x"),
        "<a href=\"/site/x/\" class=\"text-gray-700 hover:text-blue-600 px-3\">Home</a>\
<a href=\"https://e.com\" class=\"text-gray-700 hover:text-blue-600 px-3\">Ext</a>"
    );
}

#[test]
fn nav_link_defaults_for_missing_fields() {
    let nav_links = Json::Array(vec![obj(vec![])]);
    assert_eq!(
        render_nav_links(&nav_links, "/p"),
        "<a href=\"#\" class=\"text-gray-700 hover:text-blue-600 px-3\"></a>"
    );
}

#[test]
fn social_links_unknown_platform_and_separator() {
    let social = obj(vec![("mastodon", s("https://m.social/@a")), ("github", s("https://gh/a"))]);
    assert_eq!(
        render_social_links(&social),
        "<a href=\"https://m.social/@a\" target=\"_blank\" class=\"text-gray-500 hover:text-gray-700\"><i class=\"fab fa-link\"></i></a> \
<a href=\"https://gh/a\" target=\"_blank\" class=\"text-gray-500 hover:text-gray-700\"><i class=\"fab fa-github\"></i></a>"
    );
}

#[test]
fn contact_info_exact_with_all_parts() {
    let st = settings("", "", "a@b.c", "123", "Main St");
    assert_eq!(render_contact_info(&st), "123 | <a href=\"mailto:a@b.c\">a@b.c</a> | Main St");
}

#[test]
fn contact_info_only_address_is_not_empty() {
    let st = settings("", "", "", "", "Main St");
    assert_eq!(render_contact_info(&st), "Main St");
}

#[test]
fn blocks_render_one_per_line_exact() {
    let blocks = Json::Array(vec![
        block("heading", obj(vec![("text", s("T"))])),
        block("unknown", obj(vec![])),
        block("paragraph", obj(vec![("text", s("P"))])),
    ]);
    assert_eq!(
        render_blocks(&blocks),
        "<h2 class=\"text-2xl font-bold mt-6 mb-4\">T</h2>\n\n<p class=\"mb-4\">P</p>"
    );
}

#[test]
fn block_without_type_is_a_paragraph() {
    let blocks = Json::Array(vec![obj(vec![("content", obj(vec![("text", s("x"))]))])]);
    assert_eq!(render_blocks(&blocks), "<p class=\"mb-4\">x</p>");
}

#[test]
fn footer_without_contact_has_no_contact_div() {
    let st = settings("", "F", "", "", "");
    let f = render_footer(&st);
    assert!(!f.contains("mb-2"));
    assert!(f.contains(">F</div>"));
}

#[test]
fn blocks_render_independently() {
    let h = block("heading", obj(vec![("text", s("T"))]));
    let p = block("paragraph", obj(vec![("text", s("P"))]));
    let x = block("nothing", obj(vec![]));
    let both = render_blocks(&Json::Array(vec![h.deep_clone(), x.deep_clone(), p.deep_clone()]));
    let left = render_blocks(&Json::Array(vec![h]));
    let right = render_blocks(&Json::Array(vec![x, p]));
    assert_eq!(both, format!("{}\n{}", left, right));
    assert_eq!(render_blocks(&Json::Array(vec![])), "");
}

#[test]
fn footer_contact_cell() {
    let none = render_footer(&settings("", "F", "", "", ""));
    assert!(none.contains("<div class=\"text-gray-600 text-sm\"></div>"));
    let some = render_footer(&settings("", "F", "a@b.c", "", ""));
    assert!(some.contains("<div class=\"mb-2\"><a href=\"mailto:a@b.c\">a@b.c</a></div>"));
}
