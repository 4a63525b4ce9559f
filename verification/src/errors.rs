//! The error that the API answers with, and the requests it reads.
use vstd::prelude::*;
use crate::json::{json_entries, push_entry, Json, JsonVal};

verus! {

/// An error of the API: a message and the HTTP status it is answered with.
pub struct ApiError {
    pub message: String,
    pub status_code: u16,
}

impl ApiError {
    /// An internal server error (status 500) with a message.
    pub fn new(message: &str) -> (e: Self)
        ensures
            e.message@ == message@,
            e.status_code == 500,
    {
        ApiError { message: String::from_str(message), status_code: 500 }
    }

    /// An unauthorized error (status 401) with a message.
    pub fn unauthorized(message: &str) -> (e: Self)
        ensures
            e.message@ == message@,
            e.status_code == 401,
    {
        ApiError { message: String::from_str(message), status_code: 401 }
    }

    /// A forbidden error (status 403) with a message.
    pub fn forbidden(message: &str) -> (e: Self)
        ensures
            e.message@ == message@,
            e.status_code == 403,
    {
        ApiError { message: String::from_str(message), status_code: 403 }
    }

    /// The JSON body the error is answered with: its message and status.
    pub fn body(&self) -> (j: Json)
        ensures
            j@ == JsonVal::Object(
                seq![
                    ("message"@, JsonVal::Str(self.message@)),
                    ("status_code"@, JsonVal::Number(Some(self.status_code as i64))),
                ],
            ),
    {
        let mut es: Vec<(String, Json)> = Vec::new();
        push_entry(&mut es, "message", Json::Str(self.message.clone()));
        push_entry(&mut es, "status_code", Json::Number(Some(self.status_code as i64)));
        assert(json_entries(es@) =~= seq![
            ("message"@, JsonVal::Str(self.message@)),
            ("status_code"@, JsonVal::Number(Some(self.status_code as i64))),
        ]);
        Json::Object(es)
    }
}

/// A request to create a site.
pub struct CreateSiteRequest {
    pub subdomain: Option<String>,
    pub custom_domain: Option<String>,
    pub name: String,
    pub description: Option<String>,
    pub logo_url: Option<String>,
}

/// A request to register a user.
pub struct CreateUserRequest {
    pub email: String,
    pub password: String,
    pub name: String,
}

/// A request to sign in.
pub struct LoginRequest {
    pub email: String,
    pub password: String,
}

/// A request to create a post; `published_at` is in seconds since the Unix
/// epoch.
pub struct CreatePostRequest {
    pub title: String,
    pub slug: Option<String>,
    pub content: Option<Json>,
    pub excerpt: Option<String>,
    pub featured_image: Option<String>,
    pub status: Option<String>,
    pub published_at: Option<i64>,
    pub seo: Option<Json>,
}

/// A request to change a post; absent fields stay as they are.
pub struct UpdatePostRequest {
    pub title: Option<String>,
    pub slug: Option<String>,
    pub content: Option<Json>,
    pub excerpt: Option<String>,
    pub featured_image: Option<String>,
    pub status: Option<String>,
    pub published_at: Option<i64>,
    pub seo: Option<Json>,
}

/// A request to create a page.
pub struct CreatePageRequest {
    pub title: String,
    pub slug: Option<String>,
    pub content: Option<Json>,
    pub is_homepage: Option<bool>,
    pub show_in_nav: Option<bool>,
    pub sort_order: Option<i32>,
    pub seo: Option<Json>,
}

/// A request to change a page; absent fields stay as they are.
pub struct UpdatePageRequest {
    pub title: Option<String>,
    pub slug: Option<String>,
    pub content: Option<Json>,
    pub is_homepage: Option<bool>,
    pub show_in_nav: Option<bool>,
    pub sort_order: Option<i32>,
    pub seo: Option<Json>,
}

/// A message sent through a site's contact form; `honeypot` is a field
/// hidden from people, which only robots fill in.
pub struct ContactFormRequest {
    pub name: String,
    pub email: String,
    pub message: String,
    pub honeypot: Option<String>,
}

}
