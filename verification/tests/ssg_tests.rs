use blog_platform::json::Json;
use blog_platform::ssg::{escape_html, extract_first_image, get_theme_css, inject_theme_vars, merge_configs, render_blocks};

fn s(t: &str) -> Json {
    Json::Str(t.to_string())
}

fn obj(entries: Vec<(&str, Json)>) -> Json {
    Json::Object(entries.into_iter().map(|(k, v)| (k.to_string(), v)).collect())
}

fn block(kind: &str, content: Json) -> Json {
    obj(vec![("block_type", s(kind)), ("content", content)])
}

fn get<'a>(j: &'a Json, key: &str) -> Option<&'a Json> {
    match j {
        Json::Object(es) => es.iter().find(|(k, _)| k == key).map(|(_, v)| v),
        _ => None,
    }
}

fn text(j: Option<&Json>) -> Option<String> {
    match j {
        Some(Json::Str(t)) => Some(t.clone()),
        _ => None,
    }
}

#[test]
fn escape_html_exact() {
    assert_eq!(escape_html("<a href=\"x\">Tom & Jerry's</a>"), "&lt;a href=&quot;x&quot;&gt;Tom &amp; Jerry&#39;s&lt;/a&gt;");
}

#[test]
fn escaped_text_has_no_markup_characters() {
    let e = escape_html("<script>alert('x')</script> \"q\"");
    assert!(!e.contains('<') && !e.contains('>') && !e.contains('"') && !e.contains('\''));
}

#[test]
fn escape_html_of_plain_text_is_unchanged() {
    assert_eq!(escape_html("plain text 123"), "plain text 123");
}

#[test]
fn inject_theme_vars_exact() {
    let html = "<html lang=\"en\"><head><title>x</title></head></html>";
    assert_eq!(
        inject_theme_vars(html, "  --bg: #fff;\n", "dark"),
        "<html data-theme=\"dark\" lang=\"en\"><head>\n<style>\n:root {\n  --bg: #fff;\n}\n</style><title>x</title></head></html>"
    );
}

#[test]
fn inject_theme_vars_without_markers_changes_nothing() {
    assert_eq!(inject_theme_vars("<div>no page</div>", "--x: 1;", "light"), "<div>no page</div>");
}

#[test]
fn merge_site_values_win_and_defaults_stay() {
    let d = obj(vec![("a", s("1")), ("c", s("3"))]);
    let site = obj(vec![("b", s("20")), ("a", s("10"))]);
    let m = merge_configs(&d, &site);
    assert_eq!(text(get(&m, "a")), Some("10".to_string()));
    assert_eq!(text(get(&m, "b")), Some("20".to_string()));
    assert_eq!(text(get(&m, "c")), Some("3".to_string()));
    match &m {
        Json::Object(es) => {
            let keys: Vec<&str> = es.iter().map(|(k, _)| k.as_str()).collect();
            assert_eq!(keys, vec!["a", "b", "c"]);
        },
        _ => panic!("not an object"),
    }
}

#[test]
fn merge_with_null_keeps_defaults() {
    let d = obj(vec![("a", s("1"))]);
    let m = merge_configs(&d, &Json::Null);
    assert_eq!(text(get(&m, "a")), Some("1".to_string()));
}

#[test]
fn merge_with_non_object_site_config_replaces() {
    let d = obj(vec![("a", s("1"))]);
    let m = merge_configs(&d, &s("x"));
    assert_eq!(text(Some(&m)), Some("x".to_string()));
}

#[test]
fn theme_css_palette_flat_and_fonts() {
    let config = obj(vec![
        ("dark", obj(vec![("bg", s("#000")), ("n", Json::Number(Some(1)))])),
        ("colors", obj(vec![("bg", s("#fff"))])),
        ("accent_color", s("red")),
        ("fonts", obj(vec![("body", s("Inter"))])),
        ("heading_font", s("Lora")),
    ]);
    assert_eq!(
        get_theme_css(&config, "dark"),
        "  --bg: #000;\n  --accent_color: red;\n  --font-body: Inter;\n  --heading_font: Lora;\n"
    );
    assert_eq!(
        get_theme_css(&config, "light"),
        "  --bg: #fff;\n  --accent_color: red;\n  --font-body: Inter;\n  --heading_font: Lora;\n"
    );
}

#[test]
fn first_image_skips_blocks_without_url() {
    let content = Json::Array(vec![
        block("paragraph", obj(vec![("text", s("x"))])),
        block("image", obj(vec![("url", s(""))])),
        block("image", obj(vec![("url", s("/media/a.png"))])),
        block("image", obj(vec![("url", s("/media/b.png"))])),
    ]);
    assert_eq!(extract_first_image(&content), Some("/media/a.png".to_string()));
    assert_eq!(extract_first_image(&Json::Null), None);
    assert_eq!(extract_first_image(&Json::Array(vec![])), None);
}

#[test]
fn published_blocks_escape_text() {
    let content = Json::Array(vec![
        obj(vec![("type", s("heading")), ("level", Json::Number(Some(3))), ("content", obj(vec![("text", s("A<B"))]))]),
        block("quote", obj(vec![("text", s("q")), ("citation", s("c"))])),
        block("code", obj(vec![("language", s("rust")), ("code", s("a<b"))])),
    ]);
    assert_eq!(
        render_blocks(&content),
        "<h3>A&lt;B</h3>\n<blockquote>q<cite>c</cite></blockquote>\n<pre><code class=\"language-rust\">a&lt;b</code></pre>"
    );
}

#[test]
fn published_paragraph_forms() {
    let content = Json::Array(vec![
        block("paragraph", s("<b>raw</b>")),
        block("paragraph", obj(vec![("text", s("a & b"))])),
        block("paragraph", obj(vec![])),
    ]);
    assert_eq!(render_blocks(&content), "<b>raw</b>\n<p>a &amp; b</p>\n");
}

#[test]
fn published_youtube_video() {
    let content = Json::Array(vec![block(
        "video",
        obj(vec![("url", s("https://www.youtube.com/watch?v=abc&t=1")), ("caption", s("Cap"))]),
    )]);
    assert_eq!(
        render_blocks(&content),
        "<div class=\"video-block\"><iframe width=\"100%\" height=\"400\" src=\"https://www.youtube.com/embed/abc\" frameborder=\"0\" allowfullscreen></iframe><p class=\"caption\">Cap</p>"
    );
}

#[test]
fn published_blocks_of_non_array_are_empty() {
    assert_eq!(render_blocks(&obj(vec![])), "");
}
