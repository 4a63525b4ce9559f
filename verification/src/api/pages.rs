//! Pages: what a new page is stored with, and homepage changes.
use vstd::prelude::*;
use crate::errors::{ApiError, CreatePageRequest, UpdatePageRequest};
use crate::json::{json_entries, opt_json_view, Json, JsonVal};
use crate::util::{generate_slug, slug_of};

verus! {

/// A page about to be stored.
pub struct NewPage {
    pub title: String,
    pub slug: String,
    pub content: Option<Json>,
    pub is_homepage: bool,
    pub show_in_nav: bool,
    pub sort_order: i32,
    pub seo: Json,
}

/// Checks a request to create a page and gives what is stored: its slug is
/// the one asked for or else made from its title; it is not the homepage,
/// is shown in the navigation and sorts at 0 unless the request says
/// otherwise; its SEO settings default to an empty object. A page needs a
/// title. When the new page is the homepage, the site's other pages stop
/// being one.
pub fn create(req: &CreatePageRequest) -> (r: Result<NewPage, ApiError>)
    ensures
        r is Err <==> req.title@.len() == 0,
        r matches Err(e) ==> e.status_code == 500 && e.message@ == "Title is required"@,
        r matches Ok(p) ==> p.title@ == req.title@ && p.slug@ == (match req.slug {
            Some(s) => s@,
            None => slug_of(req.title@),
        }) && opt_json_view(p.content) == opt_json_view(req.content) && p.is_homepage == (match req.is_homepage {
            Some(b) => b,
            None => false,
        }) && p.show_in_nav == (match req.show_in_nav {
            Some(b) => b,
            None => true,
        }) && p.sort_order == (match req.sort_order {
            Some(n) => n,
            None => 0i32,
        }) && p.seo@ == (match req.seo {
            Some(s) => s@,
            None => JsonVal::Object(Seq::empty()),
        }),
{
    if req.title.as_str().unicode_len() == 0 {
        return Err(ApiError::new("Title is required"));
    }
    let slug = match &req.slug {
        Some(s) => s.clone(),
        None => generate_slug(req.title.as_str()),
    };
    let content = match &req.content {
        Some(c) => Some(c.deep_clone()),
        None => None,
    };
    let seo = match &req.seo {
        Some(s) => s.deep_clone(),
        None => Json::Object(Vec::new()),
    };
    proof {
        let e: Seq<(String, Json)> = Seq::empty();
        assert(json_entries(e) =~= Seq::empty());
    }
    Ok(NewPage {
        title: req.title.clone(),
        slug,
        content,
        is_homepage: match req.is_homepage {
            Some(b) => b,
            None => false,
        },
        show_in_nav: match req.show_in_nav {
            Some(b) => b,
            None => true,
        },
        sort_order: match req.sort_order {
            Some(n) => n,
            None => 0,
        },
        seo,
    })
}

/// Whether a change of a page makes it the homepage, so that the site's
/// other pages stop being one.
pub fn update(req: &UpdatePageRequest) -> (clears_other_homepages: bool)
    ensures
        clears_other_homepages == (req.is_homepage == Some(true)),
{
    match req.is_homepage {
        Some(b) => b,
        None => false,
    }
}

}
