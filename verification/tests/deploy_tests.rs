use blog_platform::deploy::{deployment_message, find_deployment_url, wrangler_args};
use blog_platform::handlers::{content_type_for_path, view_post, PostLookup, PostView};
use blog_platform::json::Json;
use blog_platform::render::SiteSettings;

#[test]
fn wrangler_command_line() {
    assert_eq!(
        wrangler_args("/srv/output", "my-blog"),
        vec!["pages", "deploy", "/srv/output", "--project-name", "my-blog", "--branch", "main", "--no-bundle"]
    );
}

#[test]
fn deployment_url_from_output() {
    let out = "Uploading...\r\n  ✨ Deployment complete! Take a peek over at https://abc.my-blog.pages.dev  \r\nDone\n";
    assert_eq!(find_deployment_url(out, "my-blog"), "✨ Deployment complete! Take a peek over at https://abc.my-blog.pages.dev");
}

#[test]
fn deployment_url_default() {
    assert_eq!(find_deployment_url("all good\n", "my-blog"), "https://my-blog.pages.dev");
    assert_eq!(find_deployment_url("", "p"), "https://p.pages.dev");
}

#[test]
fn deployment_messages() {
    assert_eq!(
        deployment_message(true, b"https://x.pages.dev\n", b"", "p"),
        Ok("Deployed successfully! Visit: https://x.pages.dev".to_string())
    );
    assert_eq!(
        deployment_message(false, b"", b"auth error", "p"),
        Err("Wrangler deployment failed: auth error".to_string())
    );
    assert_eq!(
        deployment_message(true, &[0xFF, b'\n'], b"", "p"),
        Ok("Deployed successfully! Visit: https://p.pages.dev".to_string())
    );
}

#[test]
fn content_types() {
    assert_eq!(content_type_for_path("sitemap.xml"), "application/xml");
    assert_eq!(content_type_for_path("feed.xml"), "application/rss+xml");
    assert_eq!(content_type_for_path("rss.xml"), "application/rss+xml");
    assert_eq!(content_type_for_path("other.xml"), "application/xml");
    assert_eq!(content_type_for_path("data.json"), "application/json");
    assert_eq!(content_type_for_path("a/b.css"), "text/css");
    assert_eq!(content_type_for_path("app.js"), "application/javascript");
    assert_eq!(content_type_for_path("x.png"), "image/png");
    assert_eq!(content_type_for_path("x.jpeg"), "image/jpeg");
    assert_eq!(content_type_for_path("x.svg"), "image/svg+xml");
    assert_eq!(content_type_for_path("favicon.ico"), "image/x-icon");
    assert_eq!(content_type_for_path("about"), "text/html");
}

fn settings() -> SiteSettings {
    SiteSettings {
        logo_url: String::new(),
        nav_links: Json::Null,
        footer_text: "(c)".to_string(),
        social_links: Json::Null,
        contact_email: String::new(),
        contact_phone: String::new(),
        contact_address: String::new(),
    }
}

#[test]
fn post_page_answers() {
    assert_eq!(view_post(&PostLookup::NoSite).status, 404);
    assert_eq!(view_post(&PostLookup::NoSite).body, "No site configured");
    assert_eq!(view_post(&PostLookup::NoPost).body, "Post not found");
    let r = view_post(&PostLookup::NoSettings);
    assert_eq!((r.status, r.body.as_str(), r.content_type.as_str()), (500, "Failed to load settings", "text/plain"));
}

#[test]
fn post_page_html() {
    let post = PostView {
        title: "Hello".to_string(),
        slug: "hello".to_string(),
        content: Json::Array(vec![Json::Object(vec![
            ("block_type".to_string(), Json::Str("paragraph".to_string())),
            ("content".to_string(), Json::Object(vec![("text".to_string(), Json::Str("Body".to_string()))])),
        ])]),
        excerpt: None,
        featured_image: Some("/media/a.png".to_string()),
    };
    let r = view_post(&PostLookup::Found { site_name: "Site".to_string(), post, settings: settings() });
    assert_eq!(r.status, 200);
    assert_eq!(r.content_type, "text/html");
    assert!(r.body.starts_with("<!DOCTYPE html>\n<html><head><meta charset=\"UTF-8\"><title>Hello</title>"));
    assert!(r.body.contains("<img src=\"/media/a.png\" alt=\"Hello\" class=\"w-full h-64 object-cover rounded-lg mb-8\">"));
    assert!(r.body.contains("<div class=\"prose\"><p class=\"mb-4\">Body</p></div>"));
    assert!(r.body.contains("← Back to Blog"));
    assert!(r.body.contains("href=\"/site/\""));
    assert!(r.body.ends_with("</footer></body></html>"));
}
