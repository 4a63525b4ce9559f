//! Sites: creation with their default pages and navigation, changes of
//! their settings, and their contact form.
use vstd::prelude::*;
use crate::errors::{ApiError, ContactFormRequest, CreateSiteRequest};
use crate::json::{
    json_entries, json_vals, member, member_text, opt_get_str, opt_json_view, opt_text_view, push_entry, push_item,
    val_get, Json, JsonVal,
};
use crate::site::nav_link_json;

verus! {

// ---------------------------------------------------------------------------
// Default content
// ---------------------------------------------------------------------------

/// A content block of a kind with the entries of its content.
pub open spec fn block_val(kind: Seq<char>, content: Seq<(Seq<char>, JsonVal)>) -> JsonVal {
    JsonVal::Object(seq![("block_type"@, JsonVal::Str(kind)), ("content"@, JsonVal::Object(content))])
}

/// A content block of a kind that holds a text.
pub open spec fn text_block(kind: Seq<char>, text: Seq<char>) -> JsonVal {
    block_val(kind, seq![("text"@, JsonVal::Str(text))])
}

/// The content of the homepage of a new site: a hero that welcomes to it.
pub open spec fn home_content(site_name: Seq<char>) -> JsonVal {
    JsonVal::Array(
        seq![
            block_val(
                "hero"@,
                seq![
                    ("title"@, JsonVal::Str("Welcome to "@ + site_name)),
                    ("subtitle"@, JsonVal::Str("Your amazing blog starts here"@)),
                    ("ctaText"@, JsonVal::Str("Read More"@)),
                    ("ctaLink"@, JsonVal::Str("/blog"@)),
                ],
            ),
        ],
    )
}

/// The content of the About page of a new site.
pub open spec fn about_content() -> JsonVal {
    JsonVal::Array(
        seq![
            text_block("heading"@, "About Us"@),
            text_block("paragraph"@, "Welcome to our about page! We are a company that does amazing things."@),
        ],
    )
}

/// The content of the Contact page of a new site.
pub open spec fn contact_content() -> JsonVal {
    JsonVal::Array(seq![text_block("heading"@, "Contact Us"@), text_block("paragraph"@, "Get in touch with us!"@)])
}

/// A page that a new site starts with.
pub struct PageSeed {
    pub title: String,
    pub slug: String,
    pub content: Json,
    pub is_homepage: bool,
}

/// The view of a page seed: title, slug, content and whether it is the
/// homepage.
pub open spec fn seed_view(p: PageSeed) -> (Seq<char>, Seq<char>, JsonVal, bool) {
    (p.title@, p.slug@, p.content@, p.is_homepage)
}

/// The pages a site named `site_name` starts with: Home (the homepage),
/// About and Contact.
pub open spec fn default_pages_of(site_name: Seq<char>) -> Seq<(Seq<char>, Seq<char>, JsonVal, bool)> {
    seq![
        ("Home"@, "home"@, home_content(site_name), true),
        ("About"@, "about"@, about_content(), false),
        ("Contact"@, "contact"@, contact_content(), false),
    ]
}

/// The navigation a new site starts with.
pub open spec fn default_nav_val() -> JsonVal {
    JsonVal::Array(
        seq![
            nav_link_json(("Home"@, "/"@)),
            nav_link_json(("Blog"@, "/blog"@)),
            nav_link_json(("About"@, "/about"@)),
            nav_link_json(("Contact"@, "/contact"@)),
        ],
    )
}

fn text_entries(key: &str, text: &str) -> (es: Vec<(String, Json)>)
    ensures
        json_entries(es@) == seq![(key@, JsonVal::Str(text@))],
{
    let mut es: Vec<(String, Json)> = Vec::new();
    push_entry(&mut es, key, Json::Str(String::from_str(text)));
    assert(json_entries(es@) =~= seq![(key@, JsonVal::Str(text@))]);
    es
}

fn block(kind: &str, content: Vec<(String, Json)>) -> (j: Json)
    ensures
        j@ == block_val(kind@, json_entries(content@)),
{
    let mut es: Vec<(String, Json)> = Vec::new();
    push_entry(&mut es, "block_type", Json::Str(String::from_str(kind)));
    push_entry(&mut es, "content", Json::Object(content));
    assert(json_entries(es@) =~= seq![
        ("block_type"@, JsonVal::Str(kind@)),
        ("content"@, JsonVal::Object(json_entries(content@))),
    ]);
    Json::Object(es)
}

fn two_blocks(a: Json, b: Json) -> (j: Json)
    ensures
        j@ == JsonVal::Array(seq![a@, b@]),
{
    let mut items: Vec<Json> = Vec::new();
    push_item(&mut items, a);
    push_item(&mut items, b);
    assert(json_vals(items@) =~= seq![a@, b@]);
    Json::Array(items)
}

fn nav_link(label: &str, url: &str) -> (j: Json)
    ensures
        j@ == nav_link_json((label@, url@)),
{
    let mut es: Vec<(String, Json)> = Vec::new();
    push_entry(&mut es, "label", Json::Str(String::from_str(label)));
    push_entry(&mut es, "url", Json::Str(String::from_str(url)));
    assert(json_entries(es@) =~= seq![("label"@, JsonVal::Str(label@)), ("url"@, JsonVal::Str(url@))]);
    Json::Object(es)
}

/// The navigation a new site starts with: Home, Blog, About and Contact.
pub fn default_nav_links() -> (j: Json)
    ensures
        j@ == default_nav_val(),
{
    let mut items: Vec<Json> = Vec::new();
    push_item(&mut items, nav_link("Home", "/"));
    push_item(&mut items, nav_link("Blog", "/blog"));
    push_item(&mut items, nav_link("About", "/about"));
    push_item(&mut items, nav_link("Contact", "/contact"));
    assert(json_vals(items@) =~= seq![
        nav_link_json(("Home"@, "/"@)),
        nav_link_json(("Blog"@, "/blog"@)),
        nav_link_json(("About"@, "/about"@)),
        nav_link_json(("Contact"@, "/contact"@)),
    ]);
    Json::Array(items)
}

fn home_page_content(site_name: &str) -> (j: Json)
    ensures
        j@ == home_content(site_name@),
{
    let mut title = String::new();
    title.append("Welcome to ");
    title.append(site_name);
    let mut c: Vec<(String, Json)> = Vec::new();
    push_entry(&mut c, "title", Json::Str(title));
    push_entry(&mut c, "subtitle", Json::Str(String::from_str("Your amazing blog starts here")));
    push_entry(&mut c, "ctaText", Json::Str(String::from_str("Read More")));
    push_entry(&mut c, "ctaLink", Json::Str(String::from_str("/blog")));
    assert(json_entries(c@) =~= seq![
        ("title"@, JsonVal::Str("Welcome to "@ + site_name@)),
        ("subtitle"@, JsonVal::Str("Your amazing blog starts here"@)),
        ("ctaText"@, JsonVal::Str("Read More"@)),
        ("ctaLink"@, JsonVal::Str("/blog"@)),
    ]);
    let hero = block("hero", c);
    let mut items: Vec<Json> = Vec::new();
    push_item(&mut items, hero);
    assert(json_vals(items@) =~= seq![hero@]);
    Json::Array(items)
}

/// The pages a site named `site_name` starts with.
pub fn default_pages(site_name: &str) -> (pages: Vec<PageSeed>)
    ensures
        pages@.map_values(|p: PageSeed| seed_view(p)) == default_pages_of(site_name@),
{
    let about = two_blocks(
        block("heading", text_entries("text", "About Us")),
        block("paragraph", text_entries("text", "Welcome to our about page! We are a company that does amazing things.")),
    );
    let contact = two_blocks(
        block("heading", text_entries("text", "Contact Us")),
        block("paragraph", text_entries("text", "Get in touch with us!")),
    );
    let pages = vec![
        PageSeed {
            title: String::from_str("Home"),
            slug: String::from_str("home"),
            content: home_page_content(site_name),
            is_homepage: true,
        },
        PageSeed { title: String::from_str("About"), slug: String::from_str("about"), content: about, is_homepage: false },
        PageSeed {
            title: String::from_str("Contact"),
            slug: String::from_str("contact"),
            content: contact,
            is_homepage: false,
        },
    ];
    assert(pages@.map_values(|p: PageSeed| seed_view(p)) =~= default_pages_of(site_name@));
    pages
}

/// The pages given to existing sites that have none: those of a site named
/// `Our Site`.
pub fn seed_default_pages() -> (pages: Vec<PageSeed>)
    ensures
        pages@.map_values(|p: PageSeed| seed_view(p)) == default_pages_of("Our Site"@),
{
    default_pages("Our Site")
}

// ---------------------------------------------------------------------------
// Creation
// ---------------------------------------------------------------------------

/// What is stored besides the request when a site is created.
pub struct SiteCreation {
    pub homepage_type: String,
    pub nav_links: Json,
    pub pages: Vec<PageSeed>,
}

/// The refusal of a second site: an installation holds one blog.
pub open spec fn second_site_message() -> Seq<char> {
    "A site already exists: this installation holds one site"@
}

/// Checks a request to create a site, given how many sites are already
/// stored, and gives what the new site starts with: homepage type `both`,
/// the default navigation, and the default pages for its name. An
/// installation holds one site, so any request is refused once a site
/// exists; otherwise a request without a name is refused.
pub fn create(req: &CreateSiteRequest, existing_sites: u64) -> (r: Result<SiteCreation, ApiError>)
    ensures
        r is Err <==> (existing_sites > 0 || req.name@.len() == 0),
        existing_sites > 0 ==> (r matches Err(e) && e.status_code == 500 && e.message@ == second_site_message()),
        existing_sites == 0 && req.name@.len() == 0 ==> (r matches Err(e) && e.status_code == 500 && e.message@
            == "Site name is required"@),
        r matches Ok(c) ==> c.homepage_type@ == "both"@ && c.nav_links@ == default_nav_val()
            && c.pages@.map_values(|p: PageSeed| seed_view(p)) == default_pages_of(req.name@),
{
    if existing_sites > 0 {
        return Err(ApiError::new("A site already exists: this installation holds one site"));
    }
    if req.name.as_str().unicode_len() == 0 {
        return Err(ApiError::new("Site name is required"));
    }
    Ok(SiteCreation {
        homepage_type: String::from_str("both"),
        nav_links: default_nav_links(),
        pages: default_pages(req.name.as_str()),
    })
}

/// Seeding and site creation give a site exactly one homepage, the first
/// page, Home at `home`.
pub proof fn lemma_default_pages_one_homepage(site_name: Seq<char>)
    ensures
        default_pages_of(site_name)[0].3,
        forall|i: int| 0 <= i < default_pages_of(site_name).len() && #[trigger] default_pages_of(site_name)[i].3 ==> i
            == 0,
        default_pages_of(site_name).len() == 3,
{
}

// ---------------------------------------------------------------------------
// Changes
// ---------------------------------------------------------------------------

/// The changes a site update asks for; an absent field is left as it is,
/// except `blog_path`, which is cleared when absent.
pub struct SiteUpdate {
    pub name: Option<String>,
    pub description: Option<String>,
    pub logo_url: Option<String>,
    pub theme: Option<String>,
    pub nav_links: Option<Json>,
    pub footer_text: Option<String>,
    pub social_links: Option<Json>,
    pub contact_phone: Option<String>,
    pub contact_email: Option<String>,
    pub contact_address: Option<String>,
    pub homepage_type: Option<String>,
    pub blog_path: Option<String>,
    pub landing_blocks: Option<Json>,
    pub settings: Option<Json>,
}

/// The text member `key` of the payload.
pub open spec fn text_member(p: JsonVal, key: Seq<char>) -> Option<Seq<char>> {
    opt_get_str(Some(p), key)
}

/// Whether an update holds what the payload asks for: the text members
/// that are texts, and the structured members as they are.
pub open spec fn is_site_update(u: SiteUpdate, p: JsonVal) -> bool {
    &&& opt_text_view(u.name) == text_member(p, "name"@)
    &&& opt_text_view(u.description) == text_member(p, "description"@)
    &&& opt_text_view(u.logo_url) == text_member(p, "logo_url"@)
    &&& opt_text_view(u.theme) == text_member(p, "theme"@)
    &&& opt_json_view(u.nav_links) == val_get(p, "nav_links"@)
    &&& opt_text_view(u.footer_text) == text_member(p, "footer_text"@)
    &&& opt_json_view(u.social_links) == val_get(p, "social_links"@)
    &&& opt_text_view(u.contact_phone) == text_member(p, "contact_phone"@)
    &&& opt_text_view(u.contact_email) == text_member(p, "contact_email"@)
    &&& opt_text_view(u.contact_address) == text_member(p, "contact_address"@)
    &&& opt_text_view(u.homepage_type) == text_member(p, "homepage_type"@)
    &&& opt_text_view(u.blog_path) == text_member(p, "blog_path"@)
    &&& opt_json_view(u.landing_blocks) == val_get(p, "landing_blocks"@)
    &&& opt_json_view(u.settings) == val_get(p, "settings"@)
}

/// The changes that a site update payload asks for.
pub fn update(payload: &Json) -> (u: SiteUpdate)
    ensures
        is_site_update(u, payload@),
{
    SiteUpdate {
        name: member_text(payload, "name"),
        description: member_text(payload, "description"),
        logo_url: member_text(payload, "logo_url"),
        theme: member_text(payload, "theme"),
        nav_links: member(payload, "nav_links"),
        footer_text: member_text(payload, "footer_text"),
        social_links: member(payload, "social_links"),
        contact_phone: member_text(payload, "contact_phone"),
        contact_email: member_text(payload, "contact_email"),
        contact_address: member_text(payload, "contact_address"),
        homepage_type: member_text(payload, "homepage_type"),
        blog_path: member_text(payload, "blog_path"),
        landing_blocks: member(payload, "landing_blocks"),
        settings: member(payload, "settings"),
    }
}

// ---------------------------------------------------------------------------
// Contact form
// ---------------------------------------------------------------------------

/// What becomes of a contact message.
#[derive(Clone, Copy, Debug, PartialEq, Eq, Structural)]
pub enum ContactOutcome {
    /// The honeypot was filled in: the message is dropped, and answered 200
    /// as if it had been taken.
    Dropped,
    /// The message is stored and answered 201.
    Stored,
}

/// Whether a contact message is from a robot: its honeypot is filled in.
pub open spec fn is_robot(req: ContactFormRequest) -> bool {
    match req.honeypot {
        Some(h) => h@.len() > 0,
        None => false,
    }
}

/// Decides on a contact message: messages from robots are dropped, the
/// others need a name, an email and a message.
pub fn submit_contact(req: &ContactFormRequest) -> (r: Result<ContactOutcome, ApiError>)
    ensures
        is_robot(*req) ==> r == Ok::<ContactOutcome, ApiError>(ContactOutcome::Dropped),
        !is_robot(*req) ==> (r is Err <==> (req.name@.len() == 0 || req.email@.len() == 0 || req.message@.len() == 0)),
        !is_robot(*req) && r is Ok ==> r == Ok::<ContactOutcome, ApiError>(ContactOutcome::Stored),
        r matches Err(e) ==> e.status_code == 500 && e.message@ == "Name, email, and message are required"@,
{
    match &req.honeypot {
        Some(h) => {
            if h.as_str().unicode_len() > 0 {
                return Ok(ContactOutcome::Dropped);
            }
        },
        None => {},
    }
    if req.name.as_str().unicode_len() == 0 || req.email.as_str().unicode_len() == 0
        || req.message.as_str().unicode_len() == 0 {
        return Err(ApiError::new("Name, email, and message are required"));
    }
    Ok(ContactOutcome::Stored)
}

}
