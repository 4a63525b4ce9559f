//! Posts: what a new post is stored with, and the checks on changes.
use vstd::prelude::*;
use crate::errors::{ApiError, CreatePostRequest, UpdatePostRequest};
use crate::json::{opt_json_view, opt_text_view, Json, JsonVal};
use crate::util::{generate_slug, is_valid_url, slug_of, url_is_valid};

verus! {

/// The refusal of a featured image whose address is not allowed.
pub open spec fn bad_image_message() -> Seq<char> {
    "Invalid featured image URL: javascript: and data: URLs are not allowed"@
}

/// Whether an optional featured image may be stored.
pub open spec fn image_allowed(image: Option<String>) -> bool {
    match image {
        Some(u) => url_is_valid(u@),
        None => true,
    }
}

fn check_image(image: &Option<String>) -> (r: Result<(), ApiError>)
    ensures
        r is Ok <==> image_allowed(*image),
        r matches Err(e) ==> e.status_code == 500 && e.message@ == bad_image_message(),
{
    match image {
        Some(u) => {
            if !is_valid_url(u.as_str()) {
                return Err(ApiError::new("Invalid featured image URL: javascript: and data: URLs are not allowed"));
            }
            Ok(())
        },
        None => Ok(()),
    }
}

/// A post about to be stored.
pub struct NewPost {
    pub title: String,
    pub slug: String,
    pub content: Option<Json>,
    pub excerpt: Option<String>,
    pub featured_image: Option<String>,
    pub seo: Json,
}

/// Checks a request to create a post and gives what is stored: its slug is
/// the one asked for or else made from its title, and its SEO settings
/// default to an empty object. A post needs a title, and a featured image
/// must have an allowed address.
pub fn create(req: &CreatePostRequest) -> (r: Result<NewPost, ApiError>)
    ensures
        r is Ok <==> req.title@.len() > 0 && image_allowed(req.featured_image),
        r matches Err(e) ==> e.status_code == 500 && (if req.title@.len() == 0 {
            e.message@ == "Title is required"@
        } else {
            e.message@ == bad_image_message()
        }),
        r matches Ok(p) ==> p.title@ == req.title@ && p.slug@ == (match req.slug {
            Some(s) => s@,
            None => slug_of(req.title@),
        }) && opt_json_view(p.content) == opt_json_view(req.content) && opt_text_view(p.excerpt) == opt_text_view(
            req.excerpt,
        ) && opt_text_view(p.featured_image) == opt_text_view(req.featured_image) && p.seo@ == (match req.seo {
            Some(s) => s@,
            None => JsonVal::Object(Seq::empty()),
        }),
{
    if req.title.as_str().unicode_len() == 0 {
        return Err(ApiError::new("Title is required"));
    }
    check_image(&req.featured_image)?;
    let slug = match &req.slug {
        Some(s) => s.clone(),
        None => generate_slug(req.title.as_str()),
    };
    let content = match &req.content {
        Some(c) => Some(c.deep_clone()),
        None => None,
    };
    let seo = match &req.seo {
        Some(s) => s.deep_clone(),
        None => Json::Object(Vec::new()),
    };
    proof {
        let e: Seq<(String, Json)> = Seq::empty();
        assert(crate::json::json_entries(e) =~= Seq::empty());
    }
    Ok(NewPost {
        title: req.title.clone(),
        slug,
        content,
        excerpt: req.excerpt.clone(),
        featured_image: req.featured_image.clone(),
        seo,
    })
}

/// Checks a request to change a post: a featured image must have an
/// allowed address.
pub fn update(req: &UpdatePostRequest) -> (r: Result<(), ApiError>)
    ensures
        r is Ok <==> image_allowed(req.featured_image),
        r matches Err(e) ==> e.status_code == 500 && e.message@ == bad_image_message(),
{
    check_image(&req.featured_image)
}

}
