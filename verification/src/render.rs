//! Server-side HTML rendering of site chrome (header, footer, navigation,
//! social and contact links) and of content blocks.
use vstd::prelude::*;
use crate::json::{json_vals, lemma_json_vals, opt_val, str_field, str_field_or, val_as_str, val_get, Json, JsonVal};
use crate::text::{
    after_last, after_last_exec, chars_eq_str, chars_of, contains, contains_str, has_prefix, join,
    lemma_join_concat, lemma_join_push, lemma_find_from_none, occurs_at, push_chars, push_joined, second_piece, second_piece_exec, starts_with_str,
    string_of,
};

verus! {

/// The settings of a site that its header and footer show.
pub struct SiteSettings {
    pub logo_url: String,
    pub nav_links: Json,
    pub footer_text: String,
    pub social_links: Json,
    pub contact_email: String,
    pub contact_phone: String,
    pub contact_address: String,
}

/// An HTML (or plain text) answer: status code, content type and body.
pub struct HtmlResponse {
    pub status: u16,
    pub content_type: String,
    pub body: String,
}

// ---------------------------------------------------------------------------
// Navigation links
// ---------------------------------------------------------------------------

/// The link for one navigation entry: `label` (default empty) and `url`
/// (default `#`); a URL starting with `/` is taken relative to `site_path`.
pub open spec fn nav_link_html(link: JsonVal, site_path: Seq<char>) -> Seq<char> {
    let label = str_field(Some(link), "label"@, ""@);
    let url = str_field(Some(link), "url"@, "#"@);
    let full = if has_prefix(url, "/"@) {
        site_path + url
    } else {
        url
    };
    "<a href=\""@ + full + "\" class=\"text-gray-700 hover:text-blue-600 px-3\">"@ + label + "</a>"@
}

/// The navigation links of a JSON array, one after the other; nothing for
/// any other value.
pub open spec fn nav_links_html(nav: JsonVal, site_path: Seq<char>) -> Seq<char> {
    match nav {
        JsonVal::Array(items) => join(items.map_values(|l: JsonVal| nav_link_html(l, site_path)), ""@),
        _ => Seq::empty(),
    }
}

fn render_nav_link(link: &Json, site_path: &str) -> (s: String)
    ensures
        s@ == nav_link_html(link@, site_path@),
{
    let label = str_field_or(Some(link), "label", "");
    let url = str_field_or(Some(link), "url", "#");
    let mut out = String::new();
    out.append("<a href=\"");
    if starts_with_str(url.as_slice(), "/") {
        out.append(site_path);
    }
    push_chars(&mut out, url.as_slice());
    out.append("\" class=\"text-gray-700 hover:text-blue-600 px-3\">");
    push_chars(&mut out, label.as_slice());
    out.append("</a>");
    assert(out@ =~= nav_link_html(link@, site_path@));
    out
}

/// Renders the navigation links of a site, relative links under `site_path`.
pub fn render_nav_links(nav_links: &Json, site_path: &str) -> (html: String)
    ensures
        html@ == nav_links_html(nav_links@, site_path@),
{
    match nav_links {
        Json::Array(v) => {
            let ghost items = json_vals(v@);
            let ghost parts = items.map_values(|l: JsonVal| nav_link_html(l, site_path@));
            proof { lemma_json_vals(v@); }
            let mut out = String::new();
            for i in 0..v.len()
                invariant
                    items == json_vals(v@),
                    items.len() == v@.len(),
                    parts == items.map_values(|l: JsonVal| nav_link_html(l, site_path@)),
                    forall|k: int| 0 <= k < v@.len() ==> #[trigger] items[k] == v@[k]@,
                    out@ == join(parts.take(i as int), ""@),
            {
                let piece = render_nav_link(&v[i], site_path);
                push_joined(&mut out, i == 0, "", piece.as_str());
                proof {
                    lemma_join_push(parts.take(i as int), parts[i as int], ""@);
                    assert(parts.take(i + 1) =~= parts.take(i as int).push(parts[i as int]));
                }
            }
            assert(parts.take(v.len() as int) =~= parts);
            out
        },
        _ => String::new(),
    }
}

// ---------------------------------------------------------------------------
// Social links
// ---------------------------------------------------------------------------

/// The Font Awesome icon class for a social platform.
pub open spec fn social_icon(platform: Seq<char>) -> Seq<char> {
    if platform == "x"@ {
        "fa-x-twitter"@
    } else if platform == "facebook"@ {
        "fa-facebook"@
    } else if platform == "instagram"@ {
        "fa-instagram"@
    } else if platform == "linkedin"@ {
        "fa-linkedin"@
    } else if platform == "youtube"@ {
        "fa-youtube"@
    } else if platform == "github"@ {
        "fa-github"@
    } else if platform == "tiktok"@ {
        "fa-tiktok"@
    } else {
        "fa-link"@
    }
}

/// The icon link for one social platform.
pub open spec fn social_link_html(platform: Seq<char>, url: Seq<char>) -> Seq<char> {
    "<a href=\""@ + url + "\" target=\"_blank\" class=\"text-gray-500 hover:text-gray-700\"><i class=\"fab "@
        + social_icon(platform) + "\"></i></a>"@
}

/// The icon links of the entries of an object whose value is a non-empty
/// text, in the order of the entries.
pub open spec fn social_parts(es: Seq<(Seq<char>, JsonVal)>) -> Seq<Seq<char>>
    decreases es.len(),
{
    if es.len() == 0 {
        Seq::empty()
    } else {
        let prev = social_parts(es.drop_last());
        match val_as_str(es.last().1) {
            Some(u) => if u.len() > 0 {
                prev.push(social_link_html(es.last().0, u))
            } else {
                prev
            },
            None => prev,
        }
    }
}

/// The social links of a JSON object, separated by spaces; nothing for any
/// other value.
pub open spec fn social_links_html(social: JsonVal) -> Seq<char> {
    match social {
        JsonVal::Object(es) => join(social_parts(es), " "@),
        _ => Seq::empty(),
    }
}

fn social_icon_exec(platform: &[char]) -> (icon: &'static str)
    ensures
        icon@ == social_icon(platform@),
{
    if chars_eq_str(platform, "x") {
        "fa-x-twitter"
    } else if chars_eq_str(platform, "facebook") {
        "fa-facebook"
    } else if chars_eq_str(platform, "instagram") {
        "fa-instagram"
    } else if chars_eq_str(platform, "linkedin") {
        "fa-linkedin"
    } else if chars_eq_str(platform, "youtube") {
        "fa-youtube"
    } else if chars_eq_str(platform, "github") {
        "fa-github"
    } else if chars_eq_str(platform, "tiktok") {
        "fa-tiktok"
    } else {
        "fa-link"
    }
}

/// Renders the social icon links of a site; entries whose value is not a
/// non-empty text are left out.
pub fn render_social_links(social_links: &Json) -> (html: String)
    ensures
        html@ == social_links_html(social_links@),
{
    match social_links {
        Json::Object(v) => {
            let ghost es = crate::json::json_entries(v@);
            proof { crate::json::lemma_json_entries(v@); }
            let mut out = String::new();
            let mut first = true;
            assert(es.take(0) =~= Seq::<(Seq<char>, JsonVal)>::empty());
            for i in 0..v.len()
                invariant
                    es == crate::json::json_entries(v@),
                    es.len() == v@.len(),
                    forall|k: int| 0 <= k < v@.len() ==> #[trigger] es[k] == (v@[k].0@, v@[k].1@),
                    first == (social_parts(es.take(i as int)).len() == 0),
                    out@ == join(social_parts(es.take(i as int)), " "@),
            {
                assert(es.take(i + 1).drop_last() =~= es.take(i as int));
                let ghost prev = social_parts(es.take(i as int));
                match v[i].1.as_str() {
                    Some(u) => {
                        let uc = chars_of(u);
                        if uc.len() > 0 {
                            let pc = chars_of(v[i].0.as_str());
                            let mut piece = String::new();
                            piece.append("<a href=\"");
                            piece.append(u);
                            piece.append("\" target=\"_blank\" class=\"text-gray-500 hover:text-gray-700\"><i class=\"fab ");
                            piece.append(social_icon_exec(pc.as_slice()));
                            piece.append("\"></i></a>");
                            assert(piece@ =~= social_link_html(es[i as int].0, u@));
                            push_joined(&mut out, first, " ", piece.as_str());
                            proof { lemma_join_push(prev, piece@, " "@); }
                            first = false;
                        }
                    },
                    None => {},
                }
            }
            assert(es.take(v.len() as int) =~= es);
            out
        },
        _ => String::new(),
    }
}

// ---------------------------------------------------------------------------
// Contact information, header and footer
// ---------------------------------------------------------------------------

/// The pieces of contact information that are given: phone, e-mail (as a
/// `mailto:` link) and address, in this order.
pub open spec fn contact_parts(phone: Seq<char>, email: Seq<char>, address: Seq<char>) -> Seq<Seq<char>> {
    let a = if phone.len() > 0 { seq![phone] } else { Seq::empty() };
    let b = if email.len() > 0 {
        a.push("<a href=\"mailto:"@ + email + "\">"@ + email + "</a>"@)
    } else {
        a
    };
    if address.len() > 0 { b.push(address) } else { b }
}

/// The contact line of a site: the given pieces separated by ` | `.
pub open spec fn contact_info_html(phone: Seq<char>, email: Seq<char>, address: Seq<char>) -> Seq<char> {
    join(contact_parts(phone, email, address), " | "@)
}

/// The contact line is empty exactly when the site gives no phone, no
/// e-mail and no address.
pub proof fn lemma_contact_empty_iff(phone: Seq<char>, email: Seq<char>, address: Seq<char>)
    ensures
        contact_info_html(phone, email, address).len() == 0 <==> (phone.len() == 0 && email.len() == 0
            && address.len() == 0),
{
    let parts = contact_parts(phone, email, address);
    reveal_with_fuel(join, 4);
    if parts.len() > 0 {
        assert(parts[0].len() > 0);
        if parts.len() == 2 {
            assert(parts.drop_last().len() == 1);
        } else if parts.len() == 3 {
            assert(parts.drop_last().drop_last().len() == 1);
        }
    }
}

/// Renders the contact line (phone, e-mail link, address) of a site.
pub fn render_contact_info(settings: &SiteSettings) -> (html: String)
    ensures
        html@ == contact_info_html(settings.contact_phone@, settings.contact_email@, settings.contact_address@),
{
    let ghost phone = settings.contact_phone@;
    let ghost email = settings.contact_email@;
    let ghost address = settings.contact_address@;
    let mut out = String::new();
    let mut count: usize = 0;
    let ghost mut parts: Seq<Seq<char>> = Seq::empty();
    let pc = chars_of(settings.contact_phone.as_str());
    if pc.len() > 0 {
        push_joined(&mut out, count == 0, " | ", settings.contact_phone.as_str());
        proof { lemma_join_push(parts, phone, " | "@); parts = parts.push(phone); }
        count = count + 1;
    }
    let ec = chars_of(settings.contact_email.as_str());
    if ec.len() > 0 {
        let mut piece = String::new();
        piece.append("<a href=\"mailto:");
        piece.append(settings.contact_email.as_str());
        piece.append("\">");
        piece.append(settings.contact_email.as_str());
        piece.append("</a>");
        push_joined(&mut out, count == 0, " | ", piece.as_str());
        proof { lemma_join_push(parts, piece@, " | "@); parts = parts.push(piece@); }
        count = count + 1;
    }
    let ac = chars_of(settings.contact_address.as_str());
    if ac.len() > 0 {
        push_joined(&mut out, count == 0, " | ", settings.contact_address.as_str());
        proof { lemma_join_push(parts, address, " | "@); parts = parts.push(address); }
        count = count + 1;
    }
    assert(parts =~= contact_parts(phone, email, address));
    out
}

/// The header of a site page: optional logo, site name linking to
/// `/site/{slug}`, and the navigation links under that path.
pub open spec fn header_html(logo_url: Seq<char>, nav: JsonVal, site_name: Seq<char>, slug: Seq<char>) -> Seq<char> {
    let site_path = "/site/"@ + slug;
    let logo = if logo_url.len() > 0 {
        "<img src=\""@ + logo_url + "\" class=\"h-10 w-auto\">"@
    } else {
        Seq::empty()
    };
    "\n<header class=\"bg-white shadow-sm\">\n    <div class=\"max-w-4xl mx-auto px-6 py-4 flex items-center justify-between\">\n        <div class=\"flex items-center gap-4\">\n            "@
        + logo + "<a href=\""@ + site_path + "\" class=\"text-xl font-bold text-gray-800\">"@ + site_name
        + "</a>\n        </div>\n        <nav class=\"flex items-center gap-2\">"@ + nav_links_html(nav, site_path)
        + "</nav>\n    </div>\n</header>"@
}

/// Renders the header of a site page.
pub fn render_header(settings: &SiteSettings, site_name: &str, slug: &str) -> (html: String)
    ensures
        html@ == header_html(settings.logo_url@, settings.nav_links@, site_name@, slug@),
{
    let mut site_path = String::new();
    site_path.append("/site/");
    site_path.append(slug);
    assert(site_path@ =~= "/site/"@ + slug@);
    let nav_html = render_nav_links(&settings.nav_links, site_path.as_str());
    let lc = chars_of(settings.logo_url.as_str());
    let mut out = String::new();
    out.append("\n<header class=\"bg-white shadow-sm\">\n    <div class=\"max-w-4xl mx-auto px-6 py-4 flex items-center justify-between\">\n        <div class=\"flex items-center gap-4\">\n            ");
    if lc.len() > 0 {
        out.append("<img src=\"");
        out.append(settings.logo_url.as_str());
        out.append("\" class=\"h-10 w-auto\">");
    }
    out.append("<a href=\"");
    out.append(site_path.as_str());
    out.append("\" class=\"text-xl font-bold text-gray-800\">");
    out.append(site_name);
    out.append("</a>\n        </div>\n        <nav class=\"flex items-center gap-2\">");
    out.append(nav_html.as_str());
    out.append("</nav>\n    </div>\n</header>");
    assert(out@ =~= header_html(settings.logo_url@, settings.nav_links@, site_name@, slug@));
    out
}

/// The footer of a site page: contact line (when there is one), social
/// links and footer text.
pub open spec fn footer_html(contact: Seq<char>, social: Seq<char>, footer_text: Seq<char>) -> Seq<char> {
    let contact_block = if contact.len() > 0 {
        "<div class=\"mb-2\">"@ + contact + "</div>"@
    } else {
        Seq::empty()
    };
    "\n<footer class=\"bg-gray-100 mt-16\">\n    <div class=\"max-w-4xl mx-auto px-6 py-8\">\n        <div class=\"flex flex-col md:flex-row justify-between items-center gap-4\">\n            <div class=\"text-gray-600 text-sm\">"@
        + contact_block + "</div>\n            <div class=\"flex gap-4\">"@ + social
        + "</div>\n        </div>\n        <div class=\"text-center text-gray-500 text-sm mt-4\">"@ + footer_text
        + "</div>\n    </div>\n</footer>"@
}

/// The footer holds the contact line in its own block when the site has
/// contact information, and an empty contact cell when it has none.
pub proof fn lemma_footer_contact(contact: Seq<char>, social: Seq<char>, footer_text: Seq<char>)
    ensures
        contact.len() > 0 ==> contains(
            footer_html(contact, social, footer_text),
            "<div class=\"mb-2\">"@ + contact + "</div>"@,
        ),
        contact.len() == 0 ==> contains(
            footer_html(contact, social, footer_text),
            "<div class=\"text-gray-600 text-sm\"></div>"@,
        ),
{
    let f = footer_html(contact, social, footer_text);
    let head = "\n<footer class=\"bg-gray-100 mt-16\">\n    <div class=\"max-w-4xl mx-auto px-6 py-8\">\n        <div class=\"flex flex-col md:flex-row justify-between items-center gap-4\">\n            <div class=\"text-gray-600 text-sm\">"@;
    let tail = "</div>\n            <div class=\"flex gap-4\">"@ + social
        + "</div>\n        </div>\n        <div class=\"text-center text-gray-500 text-sm mt-4\">"@ + footer_text
        + "</div>\n    </div>\n</footer>"@;
    if contact.len() > 0 {
        let block = "<div class=\"mb-2\">"@ + contact + "</div>"@;
        assert(f =~= head + block + tail);
        assert(f.subrange(head.len() as int, (head.len() + block.len()) as int) =~= block);
        assert(occurs_at(f, block, head.len() as int));
        lemma_find_from_none(f, block, 0);
    } else {
        reveal_strlit("\n<footer class=\"bg-gray-100 mt-16\">\n    <div class=\"max-w-4xl mx-auto px-6 py-8\">\n        <div class=\"flex flex-col md:flex-row justify-between items-center gap-4\">\n            <div class=\"text-gray-600 text-sm\">");
        reveal_strlit("<div class=\"text-gray-600 text-sm\"></div>");
        reveal_strlit("</div>\n            <div class=\"flex gap-4\">");
        let cell = "<div class=\"text-gray-600 text-sm\"></div>"@;
        let at = head.len() - 35;
        assert(f =~= head + tail);
        assert(f.subrange(at, at + cell.len()) =~= cell);
        assert(occurs_at(f, cell, at));
        lemma_find_from_none(f, cell, 0);
    }
}

/// A text holds no occurrence of `p` when it lacks one of `p`'s characters.
proof fn lemma_absent_char(s: Seq<char>, p: Seq<char>, k: int)
    requires
        0 <= k < p.len(),
        forall|i: int| 0 <= i < s.len() ==> s[i] != p[k],
    ensures
        !contains(s, p),
{
    lemma_find_from_none(s, p, 0);
    assert forall|j: int| 0 <= j implies !#[trigger] occurs_at(s, p, j) by {
        if occurs_at(s, p, j) {
            assert(s.subrange(j, j + p.len())[k] == s[j + k]);
        }
    }
}

/// Two texts without `p` joined hold no `p` when no occurrence can span the
/// joint: the first text's last character is not one of `p`'s characters
/// before its last, or the second text's first character is not one of
/// `p`'s characters after its first.
proof fn lemma_absent_concat(a: Seq<char>, b: Seq<char>, p: Seq<char>)
    requires
        p.len() > 0,
        !contains(a, p),
        !contains(b, p),
        (a.len() > 0 && forall|k: int| 0 <= k < p.len() - 1 ==> a.last() != #[trigger] p[k]) || (b.len() > 0
            && forall|k: int| 1 <= k < p.len() ==> b[0] != #[trigger] p[k]),
    ensures
        !contains(a + b, p),
{
    let ab = a + b;
    lemma_find_from_none(a, p, 0);
    lemma_find_from_none(b, p, 0);
    lemma_find_from_none(ab, p, 0);
    assert forall|j: int| 0 <= j implies !#[trigger] occurs_at(ab, p, j) by {
        if occurs_at(ab, p, j) {
            if j + p.len() <= a.len() {
                assert(ab.subrange(j, j + p.len()) =~= a.subrange(j, j + p.len()));
                assert(occurs_at(a, p, j));
            } else if j >= a.len() {
                assert(ab.subrange(j, j + p.len()) =~= b.subrange(j - a.len(), j - a.len() + p.len()));
                assert(occurs_at(b, p, j - a.len()));
            } else {
                assert(ab.subrange(j, j + p.len())[a.len() - 1 - j] == a.last());
                assert(ab.subrange(j, j + p.len())[a.len() - j] == b[0]);
            }
        }
    }
}

/// The contact block of the footer is there exactly when the site has
/// contact information, provided neither the social links nor the footer
/// text hold `mb-2`, the class of that block.
pub proof fn lemma_footer_contact_iff(contact: Seq<char>, social: Seq<char>, footer_text: Seq<char>)
    requires
        !contains(social, "mb-2"@),
        !contains(footer_text, "mb-2"@),
    ensures
        contains(footer_html(contact, social, footer_text), "<div class=\"mb-2\">"@ + contact + "</div>"@)
            <==> contact.len() > 0,
{
    lemma_footer_contact(contact, social, footer_text);
    if contact.len() == 0 {
        let p = "mb-2"@;
        let l1 = "\n<footer class=\"bg-gray-100 mt-16\">\n    <div class=\"max-w-4xl mx-auto px-6 py-8\">\n        <div class=\"flex flex-col md:flex-row justify-between items-center gap-4\">\n            <div class=\"text-gray-600 text-sm\">"@
            + "</div>\n            <div class=\"flex gap-4\">"@;
        let l2 = "</div>\n        </div>\n        <div class=\"text-center text-gray-500 text-sm mt-4\">"@;
        let l3 = "</div>\n    </div>\n</footer>"@;
        reveal_strlit("mb-2");
        reveal_strlit("\n<footer class=\"bg-gray-100 mt-16\">\n    <div class=\"max-w-4xl mx-auto px-6 py-8\">\n        <div class=\"flex flex-col md:flex-row justify-between items-center gap-4\">\n            <div class=\"text-gray-600 text-sm\">");
        reveal_strlit("</div>\n            <div class=\"flex gap-4\">");
        reveal_strlit("</div>\n        </div>\n        <div class=\"text-center text-gray-500 text-sm mt-4\">");
        reveal_strlit("</div>\n    </div>\n</footer>");
        reveal_strlit("<div class=\"mb-2\">");
        reveal_strlit("</div>");
        assert(p[3] == '2');
        lemma_absent_char(l1, p, 3);
        lemma_absent_char(l2, p, 3);
        lemma_absent_char(l3, p, 3);
        let f = footer_html(contact, social, footer_text);
        assert(f =~= l1 + social + l2 + footer_text + l3);
        lemma_absent_concat(l1, social, p);
        lemma_absent_concat(l1 + social, l2, p);
        lemma_absent_concat(l1 + social + l2, footer_text, p);
        lemma_absent_concat(l1 + social + l2 + footer_text, l3, p);
        let block = "<div class=\"mb-2\">"@ + contact + "</div>"@;
        lemma_find_from_none(f, block, 0);
        lemma_find_from_none(f, p, 0);
        assert forall|j: int| 0 <= j implies !#[trigger] occurs_at(f, block, j) by {
            if occurs_at(f, block, j) {
                assert(f.subrange(j + 12, j + 16) =~= block.subrange(12, 16));
                assert(block.subrange(12, 16) =~= p);
                assert(occurs_at(f, p, j + 12));
            }
        }
    }
}

/// Renders the footer of a site page.
pub fn render_footer(settings: &SiteSettings) -> (html: String)
    ensures
        html@ == footer_html(
            contact_info_html(settings.contact_phone@, settings.contact_email@, settings.contact_address@),
            social_links_html(settings.social_links@),
            settings.footer_text@,
        ),
{
    let social_html = render_social_links(&settings.social_links);
    let contact_html = render_contact_info(settings);
    let cc = chars_of(contact_html.as_str());
    let mut out = String::new();
    out.append("\n<footer class=\"bg-gray-100 mt-16\">\n    <div class=\"max-w-4xl mx-auto px-6 py-8\">\n        <div class=\"flex flex-col md:flex-row justify-between items-center gap-4\">\n            <div class=\"text-gray-600 text-sm\">");
    if cc.len() > 0 {
        out.append("<div class=\"mb-2\">");
        out.append(contact_html.as_str());
        out.append("</div>");
    }
    out.append("</div>\n            <div class=\"flex gap-4\">");
    out.append(social_html.as_str());
    out.append("</div>\n        </div>\n        <div class=\"text-center text-gray-500 text-sm mt-4\">");
    out.append(settings.footer_text.as_str());
    out.append("</div>\n    </div>\n</footer>");
    assert(out@ =~= footer_html(contact_html@, social_html@, settings.footer_text@));
    out
}

}

verus! {

// ---------------------------------------------------------------------------
// Content blocks
// ---------------------------------------------------------------------------

/// The background style of a hero block: the gradient, and the background
/// image over it when one is given.
pub open spec fn hero_background(bg: Seq<char>) -> Seq<char> {
    if bg.len() > 0 {
        "background: linear-gradient(135deg, #667eea 0%, #764ba2 100%); background-image: url("@ + bg + ");"@
    } else {
        "background: linear-gradient(135deg, #667eea 0%, #764ba2 100%);"@
    }
}

/// The HTML of a hero block with content `c`.
pub open spec fn hero_html(c: Option<JsonVal>) -> Seq<char> {
    "\n<div class=\"hero-section\" style=\""@ + hero_background(str_field(c, "backgroundImage"@, ""@))
        + " padding: 80px 20px; text-align: center; color: white; border-radius: 12px; margin: 20px 0;\">\n    <h1 class=\"text-4xl font-bold mb-4\">"@
        + str_field(c, "title"@, ""@) + "</h1>\n    <p class=\"text-xl mb-6\">"@ + str_field(c, "subtitle"@, ""@)
        + "</p>\n    <a href=\""@ + str_field(c, "ctaLink"@, "#"@)
        + "\" class=\"inline-block bg-white text-purple-600 px-6 py-3 rounded-lg font-medium\">"@
        + str_field(c, "ctaText"@, ""@) + "</a>\n</div>"@
}

/// The identifier of a YouTube video in its URL: the text after the first
/// `v=` up to the next one, or else the last path segment.
pub open spec fn youtube_id(url: Seq<char>) -> Seq<char> {
    match second_piece(url, "v="@) {
        Some(p) => p,
        None => after_last(url, '/'),
    }
}

/// The address to embed for a video URL: YouTube links become embed links,
/// other URLs are used as they are.
pub open spec fn video_embed_url(url: Seq<char>) -> Seq<char> {
    if contains(url, "youtube.com"@) || contains(url, "youtu.be"@) {
        "https://youtube.com/embed/"@ + youtube_id(url)
    } else {
        url
    }
}

/// The HTML of a video block with content `c`; nothing without a URL.
pub open spec fn video_html(c: Option<JsonVal>) -> Seq<char> {
    let url = str_field(c, "url"@, ""@);
    if url.len() > 0 {
        "<div class=\"my-6\"><iframe src=\""@ + video_embed_url(url)
            + "\" class=\"w-full aspect-video rounded-lg\" frameborder=\"0\" allowfullscreen></iframe><p class=\"text-gray-500 text-sm mt-2\">"@
            + str_field(c, "caption"@, ""@) + "</p></div>"@
    } else {
        Seq::empty()
    }
}

/// The HTML of an image block with content `c`; nothing without a URL.
pub open spec fn image_html(c: Option<JsonVal>) -> Seq<char> {
    let url = str_field(c, "url"@, ""@);
    if url.len() > 0 {
        "<figure class=\"my-6\"><img src=\""@ + url + "\" alt=\""@ + str_field(c, "alt"@, ""@)
            + "\" class=\"rounded-lg w-full\"></figure>"@
    } else {
        Seq::empty()
    }
}

/// The HTML of one content block, chosen by its `block_type` (default
/// `paragraph`); blocks of an unknown type render as nothing.
pub open spec fn block_html(block: JsonVal) -> Seq<char> {
    let bt = str_field(Some(block), "block_type"@, "paragraph"@);
    let c = val_get(block, "content"@);
    if bt == "heading"@ {
        "<h2 class=\"text-2xl font-bold mt-6 mb-4\">"@ + str_field(c, "text"@, ""@) + "</h2>"@
    } else if bt == "paragraph"@ {
        "<p class=\"mb-4\">"@ + str_field(c, "text"@, ""@) + "</p>"@
    } else if bt == "image"@ {
        image_html(c)
    } else if bt == "link"@ {
        "<a href=\""@ + str_field(c, "url"@, "#"@) + "\" class=\"text-blue-600 hover:underline\">"@ + str_field(
            c,
            "text"@,
            ""@,
        ) + "</a>"@
    } else if bt == "hero"@ {
        hero_html(c)
    } else if bt == "video"@ {
        video_html(c)
    } else if bt == "columns"@ {
        "<div class=\"grid grid-cols-1 md:grid-cols-2 gap-6 my-6\"><div>"@ + str_field(c, "left"@, ""@)
            + "</div><div>"@ + str_field(c, "right"@, ""@) + "</div></div>"@
    } else {
        Seq::empty()
    }
}

/// The HTML of the blocks of a JSON array, one per line (a block that
/// renders as nothing still takes its line); nothing for any other value.
pub open spec fn blocks_html(content: JsonVal) -> Seq<char> {
    match content {
        JsonVal::Array(items) => join(items.map_values(|b: JsonVal| block_html(b)), "\n"@),
        _ => Seq::empty(),
    }
}

fn render_hero(c: Option<&Json>) -> (s: String)
    ensures
        s@ == hero_html(opt_val(c)),
{
    let bg = str_field_or(c, "backgroundImage", "");
    let title = str_field_or(c, "title", "");
    let subtitle = str_field_or(c, "subtitle", "");
    let cta_link = str_field_or(c, "ctaLink", "#");
    let cta_text = str_field_or(c, "ctaText", "");
    let mut out = String::new();
    out.append("\n<div class=\"hero-section\" style=\"");
    if bg.len() > 0 {
        out.append("background: linear-gradient(135deg, #667eea 0%, #764ba2 100%); background-image: url(");
        push_chars(&mut out, bg.as_slice());
        out.append(");");
    } else {
        out.append("background: linear-gradient(135deg, #667eea 0%, #764ba2 100%);");
    }
    out.append(" padding: 80px 20px; text-align: center; color: white; border-radius: 12px; margin: 20px 0;\">\n    <h1 class=\"text-4xl font-bold mb-4\">");
    push_chars(&mut out, title.as_slice());
    out.append("</h1>\n    <p class=\"text-xl mb-6\">");
    push_chars(&mut out, subtitle.as_slice());
    out.append("</p>\n    <a href=\"");
    push_chars(&mut out, cta_link.as_slice());
    out.append("\" class=\"inline-block bg-white text-purple-600 px-6 py-3 rounded-lg font-medium\">");
    push_chars(&mut out, cta_text.as_slice());
    out.append("</a>\n</div>");
    assert(out@ =~= hero_html(opt_val(c)));
    out
}

fn render_video(c: Option<&Json>) -> (s: String)
    ensures
        s@ == video_html(opt_val(c)),
{
    let url = str_field_or(c, "url", "");
    let caption = str_field_or(c, "caption", "");
    if url.len() == 0 {
        return String::new();
    }
    let mut out = String::new();
    out.append("<div class=\"my-6\"><iframe src=\"");
    if contains_str(url.as_slice(), "youtube.com") || contains_str(url.as_slice(), "youtu.be") {
        let vpat = chars_of("v=");
        let id = match second_piece_exec(url.as_slice(), vpat.as_slice()) {
            Some(p) => p,
            None => after_last_exec(url.as_slice(), '/'),
        };
        assert(id@ == youtube_id(url@));
        out.append("https://youtube.com/embed/");
        push_chars(&mut out, id.as_slice());
    } else {
        push_chars(&mut out, url.as_slice());
    }
    out.append("\" class=\"w-full aspect-video rounded-lg\" frameborder=\"0\" allowfullscreen></iframe><p class=\"text-gray-500 text-sm mt-2\">");
    push_chars(&mut out, caption.as_slice());
    out.append("</p></div>");
    assert(out@ =~= video_html(opt_val(c)));
    out
}

fn render_image(c: Option<&Json>) -> (s: String)
    ensures
        s@ == image_html(opt_val(c)),
{
    let url = str_field_or(c, "url", "");
    let alt = str_field_or(c, "alt", "");
    if url.len() == 0 {
        return String::new();
    }
    let mut out = String::new();
    out.append("<figure class=\"my-6\"><img src=\"");
    push_chars(&mut out, url.as_slice());
    out.append("\" alt=\"");
    push_chars(&mut out, alt.as_slice());
    out.append("\" class=\"rounded-lg w-full\"></figure>");
    assert(out@ =~= image_html(opt_val(c)));
    out
}

fn render_block(block: &Json) -> (s: String)
    ensures
        s@ == block_html(block@),
{
    let bt = str_field_or(Some(block), "block_type", "paragraph");
    let c = block.get("content");
    assert(opt_val(c) == val_get(block@, "content"@));
    let mut out = String::new();
    if chars_eq_str(bt.as_slice(), "heading") {
        let text = str_field_or(c, "text", "");
        out.append("<h2 class=\"text-2xl font-bold mt-6 mb-4\">");
        push_chars(&mut out, text.as_slice());
        out.append("</h2>");
    } else if chars_eq_str(bt.as_slice(), "paragraph") {
        let text = str_field_or(c, "text", "");
        out.append("<p class=\"mb-4\">");
        push_chars(&mut out, text.as_slice());
        out.append("</p>");
    } else if chars_eq_str(bt.as_slice(), "image") {
        out = render_image(c);
    } else if chars_eq_str(bt.as_slice(), "link") {
        let url = str_field_or(c, "url", "#");
        let text = str_field_or(c, "text", "");
        out.append("<a href=\"");
        push_chars(&mut out, url.as_slice());
        out.append("\" class=\"text-blue-600 hover:underline\">");
        push_chars(&mut out, text.as_slice());
        out.append("</a>");
    } else if chars_eq_str(bt.as_slice(), "hero") {
        out = render_hero(c);
    } else if chars_eq_str(bt.as_slice(), "video") {
        out = render_video(c);
    } else if chars_eq_str(bt.as_slice(), "columns") {
        let left = str_field_or(c, "left", "");
        let right = str_field_or(c, "right", "");
        out.append("<div class=\"grid grid-cols-1 md:grid-cols-2 gap-6 my-6\"><div>");
        push_chars(&mut out, left.as_slice());
        out.append("</div><div>");
        push_chars(&mut out, right.as_slice());
        out.append("</div></div>");
    }
    assert(out@ =~= block_html(block@));
    out
}

/// Every block renders on its own: the blocks of two non-empty lists render
/// as the blocks of each, joined by one line break; no blocks render as
/// nothing.
pub proof fn lemma_blocks_concat(a: Seq<JsonVal>, b: Seq<JsonVal>)
    ensures
        blocks_html(JsonVal::Array(Seq::empty())) == Seq::<char>::empty(),
        a.len() > 0 && b.len() > 0 ==> blocks_html(JsonVal::Array(a + b)) == blocks_html(JsonVal::Array(a)) + "\n"@
            + blocks_html(JsonVal::Array(b)),
{
    let f = |x: JsonVal| block_html(x);
    assert(Seq::<JsonVal>::empty().map_values(f) =~= Seq::<Seq<char>>::empty());
    if a.len() > 0 && b.len() > 0 {
        assert((a + b).map_values(f) =~= a.map_values(f) + b.map_values(f));
        lemma_join_concat(a.map_values(f), b.map_values(f), "\n"@);
    }
}

/// A columns block shows its `left` text in the first column and its
/// `right` text in the second.
pub proof fn lemma_columns_block(b: JsonVal, cv: JsonVal, left: Seq<char>, right: Seq<char>)
    requires
        val_get(b, "block_type"@) == Some(JsonVal::Str("columns"@)),
        val_get(b, "content"@) == Some(cv),
        val_get(cv, "left"@) == Some(JsonVal::Str(left)),
        val_get(cv, "right"@) == Some(JsonVal::Str(right)),
    ensures
        blocks_html(JsonVal::Array(seq![b])) == "<div class=\"grid grid-cols-1 md:grid-cols-2 gap-6 my-6\"><div>"@
            + left + "</div><div>"@ + right + "</div></div>"@,
{
    reveal_strlit("columns");
    reveal_strlit("heading");
    reveal_strlit("paragraph");
    reveal_strlit("image");
    reveal_strlit("link");
    reveal_strlit("hero");
    reveal_strlit("video");
    let f = |x: JsonVal| block_html(x);
    assert(seq![b].map_values(f) =~= seq![block_html(b)]);
    assert("columns"@ != "heading"@) by {
        assert("columns"@[0] != "heading"@[0]);
    }
    assert("columns"@ != "paragraph"@) by {
        assert("columns"@.len() != "paragraph"@.len());
    }
    assert("columns"@ != "image"@) by {
        assert("columns"@.len() != "image"@.len());
    }
    assert("columns"@ != "link"@) by {
        assert("columns"@.len() != "link"@.len());
    }
    assert("columns"@ != "hero"@) by {
        assert("columns"@.len() != "hero"@.len());
    }
    assert("columns"@ != "video"@) by {
        assert("columns"@.len() != "video"@.len());
    }
}

/// A social icon link to `url` with the icon class `icon`.
pub open spec fn icon_link(url: Seq<char>, icon: Seq<char>) -> Seq<char> {
    "<a href=\""@ + url + "\" target=\"_blank\" class=\"text-gray-500 hover:text-gray-700\"><i class=\"fab "@ + icon
        + "\"></i></a>"@
}

/// Each known platform gets its own icon and any other platform the
/// generic link icon: the social links of a site with one platform are that
/// platform's icon link.
pub proof fn lemma_social_icons(platform: Seq<char>, url: Seq<char>)
    requires
        url.len() > 0,
    ensures
        platform == "x"@ ==> social_links_html(JsonVal::Object(seq![(platform, JsonVal::Str(url))])) == icon_link(
            url,
            "fa-x-twitter"@,
        ),
        platform == "facebook"@ ==> social_links_html(JsonVal::Object(seq![(platform, JsonVal::Str(url))]))
            == icon_link(url, "fa-facebook"@),
        platform == "instagram"@ ==> social_links_html(JsonVal::Object(seq![(platform, JsonVal::Str(url))]))
            == icon_link(url, "fa-instagram"@),
        platform == "linkedin"@ ==> social_links_html(JsonVal::Object(seq![(platform, JsonVal::Str(url))]))
            == icon_link(url, "fa-linkedin"@),
        platform == "youtube"@ ==> social_links_html(JsonVal::Object(seq![(platform, JsonVal::Str(url))]))
            == icon_link(url, "fa-youtube"@),
        platform == "github"@ ==> social_links_html(JsonVal::Object(seq![(platform, JsonVal::Str(url))]))
            == icon_link(url, "fa-github"@),
        platform == "tiktok"@ ==> social_links_html(JsonVal::Object(seq![(platform, JsonVal::Str(url))]))
            == icon_link(url, "fa-tiktok"@),
        platform != "x"@ && platform != "facebook"@ && platform != "instagram"@ && platform != "linkedin"@
            && platform != "youtube"@ && platform != "github"@ && platform != "tiktok"@ ==> social_links_html(
            JsonVal::Object(seq![(platform, JsonVal::Str(url))]),
        ) == icon_link(url, "fa-link"@),
{
    reveal_strlit("x");
    reveal_strlit("facebook");
    reveal_strlit("instagram");
    reveal_strlit("linkedin");
    reveal_strlit("youtube");
    reveal_strlit("github");
    reveal_strlit("tiktok");
    let es = seq![(platform, JsonVal::Str(url))];
    assert(es.drop_last() =~= Seq::<(Seq<char>, JsonVal)>::empty());
    assert(social_parts(Seq::<(Seq<char>, JsonVal)>::empty()) =~= Seq::<Seq<char>>::empty());
    assert(es.last() == (platform, JsonVal::Str(url)));
    assert(val_as_str(JsonVal::Str(url)) == Some(url));
    assert(social_parts(es) =~= seq![social_link_html(platform, url)]);
    assert(join(seq![social_link_html(platform, url)], " "@) == social_link_html(platform, url));
    assert("x"@ != "facebook"@) by {
        assert("x"@.len() != "facebook"@.len());
    }
    assert("x"@ != "instagram"@) by {
        assert("x"@.len() != "instagram"@.len());
    }
    assert("x"@ != "linkedin"@) by {
        assert("x"@.len() != "linkedin"@.len());
    }
    assert("x"@ != "youtube"@) by {
        assert("x"@.len() != "youtube"@.len());
    }
    assert("x"@ != "github"@) by {
        assert("x"@.len() != "github"@.len());
    }
    assert("x"@ != "tiktok"@) by {
        assert("x"@.len() != "tiktok"@.len());
    }
    assert("facebook"@ != "instagram"@) by {
        assert("facebook"@.len() != "instagram"@.len());
    }
    assert("facebook"@ != "youtube"@) by {
        assert("facebook"@.len() != "youtube"@.len());
    }
    assert("facebook"@ != "github"@) by {
        assert("facebook"@.len() != "github"@.len());
    }
    assert("facebook"@ != "tiktok"@) by {
        assert("facebook"@.len() != "tiktok"@.len());
    }
    assert("instagram"@ != "linkedin"@) by {
        assert("instagram"@.len() != "linkedin"@.len());
    }
    assert("instagram"@ != "youtube"@) by {
        assert("instagram"@.len() != "youtube"@.len());
    }
    assert("instagram"@ != "github"@) by {
        assert("instagram"@.len() != "github"@.len());
    }
    assert("instagram"@ != "tiktok"@) by {
        assert("instagram"@.len() != "tiktok"@.len());
    }
    assert("linkedin"@ != "youtube"@) by {
        assert("linkedin"@.len() != "youtube"@.len());
    }
    assert("linkedin"@ != "github"@) by {
        assert("linkedin"@.len() != "github"@.len());
    }
    assert("linkedin"@ != "tiktok"@) by {
        assert("linkedin"@.len() != "tiktok"@.len());
    }
    assert("youtube"@ != "github"@) by {
        assert("youtube"@.len() != "github"@.len());
    }
    assert("youtube"@ != "tiktok"@) by {
        assert("youtube"@.len() != "tiktok"@.len());
    }
    assert("github"@ != "tiktok"@) by {
        assert("github"@[0] != "tiktok"@[0]);
    }
    assert("facebook"@ != "linkedin"@) by {
        assert("facebook"@[0] != "linkedin"@[0]);
    }
}

/// Renders the content blocks of a page or post as HTML, one block per line.
pub fn render_blocks(content: &Json) -> (html: String)
    ensures
        html@ == blocks_html(content@),
{
    match content {
        Json::Array(v) => {
            let ghost items = json_vals(v@);
            let ghost parts = items.map_values(|b: JsonVal| block_html(b));
            proof { lemma_json_vals(v@); }
            let mut out = String::new();
            for i in 0..v.len()
                invariant
                    items == json_vals(v@),
                    items.len() == v@.len(),
                    parts == items.map_values(|b: JsonVal| block_html(b)),
                    forall|k: int| 0 <= k < v@.len() ==> #[trigger] items[k] == v@[k]@,
                    out@ == join(parts.take(i as int), "\n"@),
            {
                let piece = render_block(&v[i]);
                push_joined(&mut out, i == 0, "\n", piece.as_str());
                proof {
                    lemma_join_push(parts.take(i as int), parts[i as int], "\n"@);
                    assert(parts.take(i + 1) =~= parts.take(i as int).push(parts[i as int]));
                }
            }
            assert(parts.take(v.len() as int) =~= parts);
            out
        },
        _ => String::new(),
    }
}

// ---------------------------------------------------------------------------
// Responses
// ---------------------------------------------------------------------------

/// A successful HTML answer with the given body.
pub fn make_response(html: String) -> (r: HtmlResponse)
    ensures
        r.status == 200,
        r.content_type@ == "text/html"@,
        r.body@ == html@,
{
    HtmlResponse { status: 200, content_type: String::from_str("text/html"), body: html }
}

/// A plain-text answer with the given status code and message.
pub fn make_error(status: u16, message: &str) -> (r: HtmlResponse)
    ensures
        r.status == status,
        r.content_type@ == "text/plain"@,
        r.body@ == message@,
{
    HtmlResponse { status, content_type: String::from_str("text/plain"), body: String::from_str(message) }
}

}
