use blog_platform::api::auth::{
    bearer_token, login, login_failure, new_session_token, register, registration_failure, require_auth, validate_token,
};
use blog_platform::api::media::{prepare_upload, prepare_upload_with_id, upload_file_name};
use blog_platform::api::sites::{create, default_nav_links, default_pages, seed_default_pages, submit_contact, update, ContactOutcome};
use blog_platform::api::templates::{
    assign_template, check_deleted, config_body, create_template, delete_template, requested_template, theme_body,
    update_template, update_template_config, update_theme, CreateTemplateRequest, UpdateTemplateRequest,
};
use blog_platform::api::{build_failure, build_site, deploy_pages, DeployStep};
use blog_platform::api::{pages, posts};
use blog_platform::errors::{
    ApiError, ContactFormRequest, CreatePageRequest, CreatePostRequest, CreateSiteRequest, CreateUserRequest,
    UpdatePageRequest, UpdatePostRequest,
};
use blog_platform::json::Json;

fn s(t: &str) -> Json {
    Json::Str(t.to_string())
}

fn obj(entries: Vec<(&str, Json)>) -> Json {
    Json::Object(entries.into_iter().map(|(k, v)| (k.to_string(), v)).collect())
}

fn get<'a>(j: &'a Json, key: &str) -> Option<&'a Json> {
    match j {
        Json::Object(es) => es.iter().find(|(k, _)| k == key).map(|(_, v)| v),
        _ => None,
    }
}

fn text(j: Option<&Json>) -> Option<String> {
    match j {
        Some(Json::Str(t)) => Some(t.clone()),
        _ => None,
    }
}

fn err_message<T>(r: Result<T, ApiError>) -> (u16, String) {
    match r {
        Err(e) => (e.status_code, e.message),
        Ok(_) => panic!("expected an error"),
    }
}

// Errors

#[test]
fn api_error_statuses() {
    let e = ApiError::new("boom");
    assert_eq!((e.status_code, e.message.as_str()), (500, "boom"));
    assert_eq!(ApiError::unauthorized("u").status_code, 401);
    assert_eq!(ApiError::forbidden("f").status_code, 403);
}

#[test]
fn api_error_body() {
    let b = ApiError::unauthorized("nope").body();
    assert_eq!(text(get(&b, "message")), Some("nope".to_string()));
    assert!(matches!(get(&b, "status_code"), Some(Json::Number(Some(401)))));
}

// Authentication

#[test]
fn bearer_token_read() {
    assert_eq!(bearer_token(Some("Bearer abc-123")).ok(), Some("abc-123".to_string()));
    assert_eq!(bearer_token(Some("Bearer ")).ok(), Some(String::new()));
}

#[test]
fn bearer_token_missing_or_malformed() {
    for h in [None, Some("Basic xyz"), Some("bearer abc"), Some("Bearer")] {
        assert_eq!(err_message(bearer_token(h)), (401, "Missing or invalid Authorization header".to_string()));
    }
}

#[test]
fn token_validation_answers() {
    assert_eq!(validate_token(Some(Some(7))).ok(), Some(7));
    assert_eq!(err_message(validate_token(Some(None))), (500, "Invalid or expired token".to_string()));
    assert_eq!(err_message(validate_token(None)), (500, "Invalid token".to_string()));
}

#[test]
fn require_auth_turns_failures_into_401() {
    assert_eq!(require_auth(Ok(9)).ok().map(|u| u.user_id), Some(9));
    assert_eq!(err_message(require_auth(validate_token(None))), (401, "Invalid token".to_string()));
}

fn user(email: &str, password: &str) -> CreateUserRequest {
    CreateUserRequest { email: email.to_string(), password: password.to_string(), name: "N".to_string() }
}

#[test]
fn registration_needs_email_and_password() {
    assert_eq!(err_message(register(&user("", "password123"))), (500, "Email and password are required".to_string()));
    assert_eq!(err_message(register(&user("a@b.c", ""))), (500, "Email and password are required".to_string()));
}

#[test]
fn registration_needs_eight_bytes() {
    assert_eq!(err_message(register(&user("a@b.c", "short7!"))), (500, "Password must be at least 8 characters".to_string()));
    // four two-byte characters are eight bytes
    assert!(register(&user("a@b.c", "éééé")).is_ok());
}

#[test]
fn registered_password_signs_in() {
    let u = register(&user("a@b.c", "correct horse")).ok().expect("registered");
    assert_eq!(u.email, "a@b.c");
    assert_eq!(u.name, "N");
    assert!(u.password_hash.starts_with("$2b$12$"));
    assert!(login("correct horse", &u.password_hash).is_ok());
    assert_eq!(err_message(login("wrong horse", &u.password_hash)), (500, "Invalid email or password".to_string()));
}

#[test]
fn login_with_unreadable_hash_fails() {
    assert_eq!(err_message(login("whatever", "not a hash")), (500, "Invalid email or password".to_string()));
    assert_eq!(login_failure().message, "Invalid email or password");
}

#[test]
fn registration_store_failures() {
    let dup = registration_failure("duplicate key value violates unique constraint");
    assert_eq!(dup.message, "Email already exists");
    let other = registration_failure("connection reset");
    assert_eq!(other.message, "Failed to create user: connection reset");
}

#[test]
fn session_tokens_are_fresh_uuids() {
    let a = new_session_token();
    let b = new_session_token();
    assert_eq!(a.len(), 36);
    assert_ne!(a, b);
}

// Sites

#[test]
fn site_creation_defaults() {
    let req = CreateSiteRequest {
        subdomain: None,
        custom_domain: None,
        name: "Acme".to_string(),
        description: None,
        logo_url: None,
    };
    let c = create(&req, 0).ok().expect("created");
    assert_eq!(c.homepage_type, "both");
    let titles: Vec<(&str, &str, bool)> = c.pages.iter().map(|p| (p.title.as_str(), p.slug.as_str(), p.is_homepage)).collect();
    assert_eq!(titles, vec![("Home", "home", true), ("About", "about", false), ("Contact", "contact", false)]);
    match &c.pages[0].content {
        Json::Array(items) => {
            let content = get(&items[0], "content");
            assert_eq!(text(content.and_then(|c| get(c, "title"))), Some("Welcome to Acme".to_string()));
            assert_eq!(text(content.and_then(|c| get(c, "ctaLink"))), Some("/blog".to_string()));
        },
        _ => panic!("content"),
    }
    match &c.nav_links {
        Json::Array(items) => {
            let urls: Vec<String> = items.iter().map(|l| text(get(l, "url")).unwrap()).collect();
            assert_eq!(urls, vec!["/", "/blog", "/about", "/contact"]);
        },
        _ => panic!("nav"),
    }
}

#[test]
fn site_needs_a_name() {
    let req = CreateSiteRequest { subdomain: None, custom_domain: None, name: String::new(), description: None, logo_url: None };
    assert_eq!(err_message(create(&req, 0)), (500, "Site name is required".to_string()));
}

#[test]
fn one_site_per_installation() {
    let req = CreateSiteRequest {
        subdomain: None,
        custom_domain: None,
        name: "Second".to_string(),
        description: None,
        logo_url: None,
    };
    assert_eq!(
        err_message(create(&req, 1)),
        (500, "A site already exists: this installation holds one site".to_string())
    );
    let unnamed = CreateSiteRequest { name: String::new(), ..req };
    assert_eq!(
        err_message(create(&unnamed, 3)),
        (500, "A site already exists: this installation holds one site".to_string())
    );
}

#[test]
fn seeded_pages_welcome_to_our_site() {
    let seeds = seed_default_pages();
    match &seeds[0].content {
        Json::Array(items) => {
            let content = get(&items[0], "content");
            assert_eq!(text(content.and_then(|c| get(c, "title"))), Some("Welcome to Our Site".to_string()));
        },
        _ => panic!("content"),
    }
    assert_eq!(default_pages("X").len(), 3);
    match default_nav_links() {
        Json::Array(items) => assert_eq!(items.len(), 4),
        _ => panic!("nav"),
    }
}

#[test]
fn site_update_reads_payload() {
    let payload = obj(vec![
        ("name", s("New")),
        ("theme", Json::Number(Some(3))),
        ("nav_links", Json::Array(vec![])),
        ("blog_path", s("/news")),
    ]);
    let u = update(&payload);
    assert_eq!(u.name, Some("New".to_string()));
    assert_eq!(u.theme, None);
    assert!(matches!(u.nav_links, Some(Json::Array(_))));
    assert_eq!(u.blog_path, Some("/news".to_string()));
    assert!(u.description.is_none() && u.settings.is_none());
}

fn contact(name: &str, email: &str, message: &str, honeypot: Option<&str>) -> ContactFormRequest {
    ContactFormRequest {
        name: name.to_string(),
        email: email.to_string(),
        message: message.to_string(),
        honeypot: honeypot.map(|h| h.to_string()),
    }
}

#[test]
fn contact_messages() {
    assert_eq!(submit_contact(&contact("A", "a@b.c", "Hi", None)).ok(), Some(ContactOutcome::Stored));
    assert_eq!(submit_contact(&contact("A", "a@b.c", "Hi", Some(""))).ok(), Some(ContactOutcome::Stored));
    assert_eq!(submit_contact(&contact("", "", "", Some("bot"))).ok(), Some(ContactOutcome::Dropped));
    assert_eq!(
        err_message(submit_contact(&contact("A", "", "Hi", None))),
        (500, "Name, email, and message are required".to_string())
    );
}

// Posts and pages

fn new_post(title: &str, slug: Option<&str>, image: Option<&str>) -> CreatePostRequest {
    CreatePostRequest {
        title: title.to_string(),
        slug: slug.map(|x| x.to_string()),
        content: None,
        excerpt: None,
        featured_image: image.map(|x| x.to_string()),
        status: None,
        published_at: None,
        seo: None,
    }
}

#[test]
fn post_creation_defaults() {
    let p = posts::create(&new_post("Hello World!", None, Some("/media/a.png"))).ok().expect("post");
    assert_eq!(p.slug, "hello-world");
    assert!(matches!(p.seo, Json::Object(ref es) if es.is_empty()));
    let q = posts::create(&new_post("T", Some("custom"), None)).ok().expect("post");
    assert_eq!(q.slug, "custom");
}

#[test]
fn post_creation_refusals() {
    assert_eq!(err_message(posts::create(&new_post("", None, None))), (500, "Title is required".to_string()));
    assert_eq!(
        err_message(posts::create(&new_post("T", None, Some("javascript:alert(1)")))),
        (500, "Invalid featured image URL: javascript: and data: URLs are not allowed".to_string())
    );
}

#[test]
fn post_update_checks_image() {
    let mut req = UpdatePostRequest {
        title: None,
        slug: None,
        content: None,
        excerpt: None,
        featured_image: Some("data:image/png;base64,xx".to_string()),
        status: None,
        published_at: None,
        seo: None,
    };
    assert!(posts::update(&req).is_err());
    req.featured_image = None;
    assert!(posts::update(&req).is_ok());
}

#[test]
fn page_creation_defaults() {
    let req = CreatePageRequest {
        title: "Our Team".to_string(),
        slug: None,
        content: None,
        is_homepage: None,
        show_in_nav: None,
        sort_order: None,
        seo: Some(obj(vec![("title", s("x"))])),
    };
    let p = pages::create(&req).ok().expect("page");
    assert_eq!(p.slug, "our-team");
    assert!(!p.is_homepage && p.show_in_nav);
    assert_eq!(p.sort_order, 0);
    assert_eq!(text(get(&p.seo, "title")), Some("x".to_string()));
    let empty = CreatePageRequest { title: String::new(), ..req };
    assert_eq!(err_message(pages::create(&empty)), (500, "Title is required".to_string()));
}

#[test]
fn page_update_homepage_flag() {
    let mut req = UpdatePageRequest {
        title: None,
        slug: None,
        content: None,
        is_homepage: Some(true),
        show_in_nav: None,
        sort_order: None,
        seo: None,
    };
    assert!(pages::update(&req));
    req.is_homepage = Some(false);
    assert!(!pages::update(&req));
    req.is_homepage = None;
    assert!(!pages::update(&req));
}

// Media

#[test]
fn upload_names() {
    assert_eq!(upload_file_name(Some("photo.png")).ok(), Some("photo.png".to_string()));
    assert_eq!(upload_file_name(Some("../../etc/passwd")).ok(), Some("passwd".to_string()));
    assert_eq!(err_message(upload_file_name(Some(".."))), (500, "Invalid filename".to_string()));
    assert_eq!(err_message(upload_file_name(None)), (500, "No filename provided".to_string()));
}

#[test]
fn upload_with_prefix() {
    let u = prepare_upload_with_id("id1", "a.pdf", None, b"%PDF-1.4").ok().expect("upload");
    assert_eq!(u.stored_name, "id1_a.pdf");
    assert_eq!(u.mime_type, "application/octet-stream");
    assert_eq!(u.size, 8);
    assert_eq!(u.url, "/media/id1_a.pdf");
    let bad = prepare_upload_with_id("id1", "a.pdf", Some("application/pdf"), b"nope");
    assert_eq!(err_message(bad), (500, "Invalid file: Invalid PDF file".to_string()));
}

#[test]
fn upload_with_random_prefix() {
    let u = prepare_upload("notes.txt", Some("text/plain"), b"hi").ok().expect("upload");
    assert_eq!(u.stored_name.len(), 36 + 1 + "notes.txt".len());
    assert!(u.stored_name.ends_with("_notes.txt"));
    assert_eq!(u.url, format!("/media/{}", u.stored_name));
    assert_eq!(u.mime_type, "text/plain");
}

// Templates

#[test]
fn template_creation_and_changes() {
    let req = CreateTemplateRequest {
        name: "T".to_string(),
        description: None,
        category: None,
        thumbnail_url: None,
        html_content: None,
        css_content: None,
        js_content: None,
        default_config: None,
    };
    assert!(matches!(create_template(&req), Ok(Json::Object(ref es)) if es.is_empty()));
    let unnamed = CreateTemplateRequest { name: String::new(), ..req };
    assert_eq!(err_message(create_template(&unnamed)), (500, "Template name is required".to_string()));

    let change = UpdateTemplateRequest {
        name: Some(String::new()),
        description: Some("d".to_string()),
        category: None,
        thumbnail_url: None,
        html_content: None,
        css_content: None,
        js_content: None,
        default_config: None,
    };
    assert_eq!(err_message(update_template(true, &change)), (500, "Cannot modify builtin templates".to_string()));
    let c = update_template(false, &change).ok().expect("changes");
    assert_eq!(c.name, None);
    assert_eq!(c.description, Some("d".to_string()));
}

#[test]
fn template_deletion() {
    assert_eq!(err_message(delete_template(true)), (500, "Cannot delete builtin templates".to_string()));
    assert!(delete_template(false).is_ok());
    assert_eq!(err_message(check_deleted(0)), (500, "Template not found".to_string()));
    assert!(check_deleted(1).is_ok());
}

#[test]
fn template_assignment() {
    let payload = obj(vec![("template_id", s("67e55044-10b1-426f-9247-bb680e5fe0c8"))]);
    assert_eq!(requested_template(&payload), Some(0x67e5504410b1426f9247bb680e5fe0c8u128));
    assert_eq!(requested_template(&obj(vec![("template_id", s("nope"))])), None);
    assert_eq!(requested_template(&obj(vec![])), None);
    assert_eq!(assign_template(Some(5), true).ok(), Some(Some(5)));
    assert_eq!(assign_template(None, false).ok(), Some(None));
    assert_eq!(err_message(assign_template(Some(5), false)), (500, "Template not found".to_string()));
}

#[test]
fn theme_choice() {
    assert_eq!(update_theme(&obj(vec![("theme", s("dark"))])), "dark");
    assert_eq!(update_theme(&obj(vec![("theme", s("light"))])), "light");
    assert_eq!(update_theme(&obj(vec![("theme", s("neon"))])), "light");
    assert_eq!(update_theme(&Json::Null), "light");
    let b = theme_body("dark");
    assert_eq!(text(get(&b, "message")), Some("Theme updated successfully".to_string()));
}

#[test]
fn template_config_required() {
    let c = update_template_config(&obj(vec![("config", obj(vec![("a", s("b"))]))])).ok().expect("config");
    assert_eq!(text(get(&c, "a")), Some("b".to_string()));
    assert_eq!(err_message(update_template_config(&obj(vec![]))), (500, "Config is required".to_string()));
    let b = config_body(&c);
    assert_eq!(text(get(&b, "message")), Some("Template config updated successfully".to_string()));
}

// Build and deploy

#[test]
fn build_and_deploy_answers() {
    let ok = build_site(Ok(())).ok().expect("built");
    assert_eq!(text(get(&ok, "message")), Some("Site built successfully".to_string()));
    assert_eq!(err_message(build_site(Err("disk full".to_string()))), (500, "Failed to build site: disk full".to_string()));
    assert_eq!(build_failure("x").message, "Failed to build site: x");
    match deploy_pages(true, true, true, Some(Ok(())), Some(Ok("Deployed!".to_string()))) {
        DeployStep::Answer(Ok(d)) => assert_eq!(text(get(&d, "message")), Some("Deployed!".to_string())),
        _ => panic!("expected the deployment's message"),
    }
    match deploy_pages(true, true, true, Some(Ok(())), Some(Err("no".to_string()))) {
        DeployStep::Answer(r) => assert_eq!(err_message(r), (500, "Failed to deploy: no".to_string())),
        _ => panic!("expected an answer"),
    }
    match deploy_pages(true, true, true, Some(Err("disk full".to_string())), None) {
        DeployStep::Answer(r) => assert_eq!(err_message(r), (500, "Failed to build site: disk full".to_string())),
        _ => panic!("expected an answer"),
    }
}

#[test]
fn deploy_configuration() {
    assert!(matches!(deploy_pages(true, true, true, None, None), DeployStep::Build));
    assert!(matches!(deploy_pages(true, true, true, Some(Ok(())), None), DeployStep::Deploy));
    match deploy_pages(true, false, true, None, None) {
        DeployStep::Answer(r) => {
            let (code, msg) = err_message(r);
            assert_eq!(code, 500);
            assert!(msg.starts_with("Cloudflare Pages not configured."));
        },
        _ => panic!("an unconfigured deployment is refused before building"),
    }
}
