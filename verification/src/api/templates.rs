//! Templates: their creation and changes, and the template, theme and
//! configuration of a site.
use vstd::prelude::*;
use crate::errors::ApiError;
use crate::json::{json_entries, member, member_text, opt_get_str, opt_json_view, opt_text_view, push_entry, val_get, Json, JsonVal};
use crate::text::chars_eq_str;

verus! {

/// A request to create a template.
pub struct CreateTemplateRequest {
    pub name: String,
    pub description: Option<String>,
    pub category: Option<String>,
    pub thumbnail_url: Option<String>,
    pub html_content: Option<String>,
    pub css_content: Option<String>,
    pub js_content: Option<String>,
    pub default_config: Option<Json>,
}

/// A request to change a template; absent or empty fields stay as they are.
pub struct UpdateTemplateRequest {
    pub name: Option<String>,
    pub description: Option<String>,
    pub category: Option<String>,
    pub thumbnail_url: Option<String>,
    pub html_content: Option<String>,
    pub css_content: Option<String>,
    pub js_content: Option<String>,
    pub default_config: Option<Json>,
}

/// Checks a request to create a template and gives the default
/// configuration it is stored with: the one asked for, or an empty object.
/// A template needs a name.
pub fn create_template(req: &CreateTemplateRequest) -> (r: Result<Json, ApiError>)
    ensures
        r is Err <==> req.name@.len() == 0,
        r matches Err(e) ==> e.status_code == 500 && e.message@ == "Template name is required"@,
        r matches Ok(c) ==> c@ == (match req.default_config {
            Some(d) => d@,
            None => JsonVal::Object(Seq::empty()),
        }),
{
    if req.name.as_str().unicode_len() == 0 {
        return Err(ApiError::new("Template name is required"));
    }
    match &req.default_config {
        Some(d) => Ok(d.deep_clone()),
        None => {
            proof {
                let e: Seq<(String, Json)> = Seq::empty();
                assert(json_entries(e) =~= Seq::empty());
            }
            Ok(Json::Object(Vec::new()))
        },
    }
}

/// An optional text, kept only when it is not empty.
pub open spec fn non_empty(o: Option<String>) -> Option<Seq<char>> {
    match o {
        Some(s) => if s@.len() > 0 {
            Some(s@)
        } else {
            None
        },
        None => None,
    }
}

fn keep_non_empty(o: &Option<String>) -> (r: Option<String>)
    ensures
        opt_text_view(r) == non_empty(*o),
{
    match o {
        Some(s) => if s.as_str().unicode_len() > 0 {
            Some(s.clone())
        } else {
            None
        },
        None => None,
    }
}

/// The changes a template update makes; `None` leaves a field as it is.
pub struct TemplateChanges {
    pub name: Option<String>,
    pub description: Option<String>,
    pub category: Option<String>,
    pub thumbnail_url: Option<String>,
    pub html_content: Option<String>,
    pub css_content: Option<String>,
    pub js_content: Option<String>,
    pub default_config: Option<Json>,
}

/// Checks a change of a template, builtin or not, and gives the changes:
/// the texts that are given and not empty, and the default configuration
/// when given. Builtin templates cannot be changed.
pub fn update_template(is_builtin: bool, req: &UpdateTemplateRequest) -> (r: Result<TemplateChanges, ApiError>)
    ensures
        r is Err <==> is_builtin,
        r matches Err(e) ==> e.status_code == 500 && e.message@ == "Cannot modify builtin templates"@,
        r matches Ok(c) ==> opt_text_view(c.name) == non_empty(req.name) && opt_text_view(c.description) == non_empty(
            req.description,
        ) && opt_text_view(c.category) == non_empty(req.category) && opt_text_view(c.thumbnail_url) == non_empty(
            req.thumbnail_url,
        ) && opt_text_view(c.html_content) == non_empty(req.html_content) && opt_text_view(c.css_content)
            == non_empty(req.css_content) && opt_text_view(c.js_content) == non_empty(req.js_content)
            && opt_json_view(c.default_config) == opt_json_view(req.default_config),
{
    if is_builtin {
        return Err(ApiError::new("Cannot modify builtin templates"));
    }
    Ok(TemplateChanges {
        name: keep_non_empty(&req.name),
        description: keep_non_empty(&req.description),
        category: keep_non_empty(&req.category),
        thumbnail_url: keep_non_empty(&req.thumbnail_url),
        html_content: keep_non_empty(&req.html_content),
        css_content: keep_non_empty(&req.css_content),
        js_content: keep_non_empty(&req.js_content),
        default_config: match &req.default_config {
            Some(d) => Some(d.deep_clone()),
            None => None,
        },
    })
}

/// Checks that a template may be deleted: builtin templates cannot be.
pub fn delete_template(is_builtin: bool) -> (r: Result<(), ApiError>)
    ensures
        r is Err <==> is_builtin,
        r matches Err(e) ==> e.status_code == 500 && e.message@ == "Cannot delete builtin templates"@,
{
    if is_builtin {
        Err(ApiError::new("Cannot delete builtin templates"))
    } else {
        Ok(())
    }
}

/// The answer to a deletion that removed `affected` rows: none means the
/// template was not there.
pub fn check_deleted(affected: u64) -> (r: Result<(), ApiError>)
    ensures
        r is Err <==> affected == 0,
        r matches Err(e) ==> e.status_code == 500 && e.message@ == "Template not found"@,
{
    if affected == 0 {
        Err(ApiError::new("Template not found"))
    } else {
        Ok(())
    }
}

// ---------------------------------------------------------------------------
// Template of a site
// ---------------------------------------------------------------------------

/// The 128-bit value of the UUID that `uuid::Uuid::parse_str` reads in a
/// text, or `None` where it reads none.
pub uninterp spec fn uuid_value(text: Seq<char>) -> Option<u128>;

/// Calls `uuid::Uuid::parse_str` and takes `Uuid::as_u128` of what it
/// reads; the result is the named value.
#[verifier::external_body]
fn parse_uuid(text: &str) -> (r: Option<u128>)
    ensures
        r == uuid_value(text@),
{
    match uuid::Uuid::parse_str(text) {
        Ok(u) => Some(u.as_u128()),
        Err(_) => None,
    }
}

/// The template a payload asks a site to use: its `template_id` member,
/// read as a UUID; anything else asks for no template.
pub open spec fn requested_template_of(payload: JsonVal) -> Option<u128> {
    match opt_get_str(Some(payload), "template_id"@) {
        Some(t) => uuid_value(t),
        None => None,
    }
}

/// The template a payload asks a site to use.
pub fn requested_template(payload: &Json) -> (r: Option<u128>)
    ensures
        r == requested_template_of(payload@),
{
    match member_text(payload, "template_id") {
        Some(t) => parse_uuid(t.as_str()),
        None => None,
    }
}

/// Decides on assigning the requested template to a site, given whether a
/// template with that id exists: an unknown template is refused, and no
/// template clears the site's template.
pub fn assign_template(requested: Option<u128>, exists: bool) -> (r: Result<Option<u128>, ApiError>)
    ensures
        r is Err <==> (requested is Some && !exists),
        r matches Err(e) ==> e.status_code == 500 && e.message@ == "Template not found"@,
        r matches Ok(t) ==> t == requested,
{
    match requested {
        Some(t) => if exists {
            Ok(Some(t))
        } else {
            Err(ApiError::new("Template not found"))
        },
        None => Ok(None),
    }
}

/// The theme a payload chooses: `light` or `dark`, and `light` for anything
/// else.
pub open spec fn chosen_theme(payload: JsonVal) -> Seq<char> {
    match opt_get_str(Some(payload), "theme"@) {
        Some(t) => if t == "dark"@ {
            "dark"@
        } else {
            "light"@
        },
        None => "light"@,
    }
}

/// A site's theme is always `light` or `dark`.
pub proof fn lemma_theme_light_or_dark(payload: JsonVal)
    ensures
        chosen_theme(payload) == "light"@ || chosen_theme(payload) == "dark"@,
{
}

/// The theme a payload chooses for a site.
pub fn update_theme(payload: &Json) -> (theme: String)
    ensures
        theme@ == chosen_theme(payload@),
{
    match member_text(payload, "theme") {
        Some(t) => {
            let tc = crate::text::chars_of(t.as_str());
            if chars_eq_str(tc.as_slice(), "dark") {
                String::from_str("dark")
            } else {
                String::from_str("light")
            }
        },
        None => String::from_str("light"),
    }
}

/// The answer to a theme change.
pub fn theme_body(theme: &str) -> (j: Json)
    ensures
        j@ == JsonVal::Object(
            seq![("message"@, JsonVal::Str("Theme updated successfully"@)), ("theme"@, JsonVal::Str(theme@))],
        ),
{
    let mut es: Vec<(String, Json)> = Vec::new();
    push_entry(&mut es, "message", Json::Str(String::from_str("Theme updated successfully")));
    push_entry(&mut es, "theme", Json::Str(String::from_str(theme)));
    assert(json_entries(es@) =~= seq![
        ("message"@, JsonVal::Str("Theme updated successfully"@)),
        ("theme"@, JsonVal::Str(theme@)),
    ]);
    Json::Object(es)
}

/// The template configuration a payload sets: its `config` member, which
/// is required.
pub fn update_template_config(payload: &Json) -> (r: Result<Json, ApiError>)
    ensures
        match val_get(payload@, "config"@) {
            Some(c) => r matches Ok(j) && j@ == c,
            None => r matches Err(e) && e.status_code == 500 && e.message@ == "Config is required"@,
        },
{
    match member(payload, "config") {
        Some(c) => Ok(c),
        None => Err(ApiError::new("Config is required")),
    }
}

/// The answer to a change of a site's template configuration.
pub fn config_body(config: &Json) -> (j: Json)
    ensures
        j@ == JsonVal::Object(
            seq![
                ("message"@, JsonVal::Str("Template config updated successfully"@)),
                ("config"@, config@),
            ],
        ),
{
    let mut es: Vec<(String, Json)> = Vec::new();
    push_entry(&mut es, "message", Json::Str(String::from_str("Template config updated successfully")));
    push_entry(&mut es, "config", config.deep_clone());
    assert(json_entries(es@) =~= seq![
        ("message"@, JsonVal::Str("Template config updated successfully"@)),
        ("config"@, config@),
    ]);
    Json::Object(es)
}

}
