//! Static site generation: HTML escaping, theme variables, configuration
//! merging, the rendering of content blocks for published pages, and the
//! plan of the files of a built site.
use vstd::prelude::*;
use crate::json::{
    json_entries, json_vals, lemma_json_entries, lemma_json_vals, opt_as_str, opt_val, str_field,
    str_field_or, val_as_str, val_get, entries_get, Json, JsonVal,
};
use crate::text::{
    after_last, after_last_exec, before_first, before_first_exec, chars_eq_str, chars_of, contains,
    contains_str, decimal, find, find_from, has_suffix, join, lemma_join_concat, lemma_join_push, lowercase, occurs_at,
    push_chars, push_decimal, push_joined, replace_all, replace_str, second_piece, second_piece_exec,
    string_of, string_push, to_lowercase, lemma_occurs_contains,
};

verus! {

// ---------------------------------------------------------------------------
// HTML escaping
// ---------------------------------------------------------------------------

/// The escaped form of one character: `&`, `<`, `>`, `"` and `'` become
/// entities, other characters stay.
pub open spec fn escape_char(c: char) -> Seq<char> {
    if c == '&' {
        seq!['&', 'a', 'm', 'p', ';']
    } else if c == '<' {
        seq!['&', 'l', 't', ';']
    } else if c == '>' {
        seq!['&', 'g', 't', ';']
    } else if c == '"' {
        seq!['&', 'q', 'u', 'o', 't', ';']
    } else if c == '\'' {
        seq!['&', '#', '3', '9', ';']
    } else {
        seq![c]
    }
}

/// A text with every character escaped.
pub open spec fn escaped(s: Seq<char>) -> Seq<char>
    decreases s.len(),
{
    if s.len() == 0 {
        Seq::empty()
    } else {
        escape_char(s[0]) + escaped(s.skip(1))
    }
}

/// The characters that escaping removes from a text.
pub open spec fn is_html_special(c: char) -> bool {
    c == '<' || c == '>' || c == '"' || c == '\''
}

/// Escaping distributes over concatenation.
pub proof fn lemma_escaped_concat(a: Seq<char>, b: Seq<char>)
    ensures
        escaped(a + b) == escaped(a) + escaped(b),
    decreases a.len(),
{
    if a.len() == 0 {
        assert(a + b =~= b);
    } else {
        assert((a + b).skip(1) =~= a.skip(1) + b);
        lemma_escaped_concat(a.skip(1), b);
        assert(escape_char(a[0]) + (escaped(a.skip(1)) + escaped(b)) =~= escape_char(a[0]) + escaped(a.skip(1))
            + escaped(b));
    }
}

/// Escaping `s` with one more character appends that character's escape.
pub proof fn lemma_escaped_push(s: Seq<char>, c: char)
    ensures
        escaped(s.push(c)) == escaped(s) + escape_char(c),
{
    lemma_escaped_concat(s, seq![c]);
    assert(s.push(c) =~= s + seq![c]);
    assert(seq![c].skip(1) =~= Seq::<char>::empty());
    assert(escaped(seq![c].skip(1)) =~= Seq::<char>::empty());
    assert(escaped(seq![c]) == escape_char(c) + escaped(seq![c].skip(1)));
    assert(escaped(seq![c]) =~= escape_char(c));
}

/// Appends the escaped form of one character to `out`.
fn push_escaped_char(out: &mut String, c: char)
    ensures
        final(out)@ == old(out)@ + escape_char(c),
{
    let ghost before = out@;
    if c == '&' {
        string_push(out, '&');
        string_push(out, 'a');
        string_push(out, 'm');
        string_push(out, 'p');
        string_push(out, ';');
    } else if c == '<' {
        string_push(out, '&');
        string_push(out, 'l');
        string_push(out, 't');
        string_push(out, ';');
    } else if c == '>' {
        string_push(out, '&');
        string_push(out, 'g');
        string_push(out, 't');
        string_push(out, ';');
    } else if c == '"' {
        string_push(out, '&');
        string_push(out, 'q');
        string_push(out, 'u');
        string_push(out, 'o');
        string_push(out, 't');
        string_push(out, ';');
    } else if c == '\'' {
        string_push(out, '&');
        string_push(out, '#');
        string_push(out, '3');
        string_push(out, '9');
        string_push(out, ';');
    } else {
        string_push(out, c);
    }
    assert(out@ =~= before + escape_char(c));
}

/// Appends the escaped form of `s` to `out`.
pub fn push_escaped(out: &mut String, s: &[char])
    ensures
        final(out)@ == old(out)@ + escaped(s@),
{
    let ghost start = out@;
    assert(s@.take(0) =~= Seq::<char>::empty());
    assert(escaped(Seq::<char>::empty()) =~= Seq::<char>::empty());
    assert(start + Seq::<char>::empty() =~= start);
    for i in 0..s.len()
        invariant
            out@ == start + escaped(s@.take(i as int)),
    {
        let c = s[i];
        let ghost before = out@;
        push_escaped_char(out, c);
        proof {
            assert(out@ =~= before + escape_char(c));
            assert(s@.take(i + 1) =~= s@.take(i as int).push(c));
            lemma_escaped_push(s@.take(i as int), c);
        }
    }
    assert(s@.take(s.len() as int) =~= s@);
}

/// Escapes the characters of HTML markup (`&`, `<`, `>`, `"`, `'`) so that a
/// text can stand inside an element or an attribute value.
pub fn escape_html(s: &str) -> (r: String)
    ensures
        r@ == escaped(s@),
{
    let cs = chars_of(s);
    let mut out = String::new();
    push_escaped(&mut out, cs.as_slice());
    assert(out@ =~= escaped(s@));
    out
}

/// Escaped text holds none of `<`, `>`, `"` and `'`, and every `&` in it
/// begins one of the five entities.
pub proof fn lemma_escaped_is_inert(s: Seq<char>)
    ensures
        forall|i: int| 0 <= i < escaped(s).len() ==> !is_html_special(#[trigger] escaped(s)[i]),
    decreases s.len(),
{
    if s.len() > 0 {
        lemma_escaped_is_inert(s.skip(1));
        let e = escaped(s);
        let h = escape_char(s[0]);
        let t = escaped(s.skip(1));
        assert(e == h + t);
        assert forall|i: int| 0 <= i < e.len() implies !is_html_special(#[trigger] e[i]) by {
            if i < h.len() {
                assert(e[i] == h[i]);
            } else {
                assert(e[i] == t[i - h.len()]);
            }
        }
    }
}

/// The text that an escaped text stands for: the inverse of [`escaped`].
pub open spec fn unescaped(s: Seq<char>) -> Seq<char>
    decreases s.len(),
{
    if s.len() == 0 {
        Seq::empty()
    } else if s.len() >= 5 && s.take(5) == seq!['&', 'a', 'm', 'p', ';'] {
        seq!['&'] + unescaped(s.skip(5))
    } else if s.len() >= 4 && s.take(4) == seq!['&', 'l', 't', ';'] {
        seq!['<'] + unescaped(s.skip(4))
    } else if s.len() >= 4 && s.take(4) == seq!['&', 'g', 't', ';'] {
        seq!['>'] + unescaped(s.skip(4))
    } else if s.len() >= 6 && s.take(6) == seq!['&', 'q', 'u', 'o', 't', ';'] {
        seq!['"'] + unescaped(s.skip(6))
    } else if s.len() >= 5 && s.take(5) == seq!['&', '#', '3', '9', ';'] {
        seq!['\''] + unescaped(s.skip(5))
    } else {
        seq![s[0]] + unescaped(s.skip(1))
    }
}

/// Text without `&`, `<`, `>`, `"` or `'` escapes to itself.
pub proof fn lemma_escape_plain(s: Seq<char>)
    requires
        forall|i: int| 0 <= i < s.len() ==> #[trigger] s[i] != '&' && !is_html_special(s[i]),
    ensures
        escaped(s) == s,
    decreases s.len(),
{
    if s.len() > 0 {
        assert forall|i: int| 0 <= i < s.skip(1).len() implies #[trigger] s.skip(1)[i] != '&' && !is_html_special(
            s.skip(1)[i],
        ) by {
            assert(s.skip(1)[i] == s[i + 1]);
        }
        lemma_escape_plain(s.skip(1));
        assert(s[0] != '&' && !is_html_special(s[0]));
        assert(escape_char(s[0]) =~= seq![s[0]]);
        assert(seq![s[0]] + s.skip(1) =~= s);
    }
}

/// Escaping loses nothing: the escaped text decodes back to the text, so
/// different texts never escape to the same markup.
pub proof fn lemma_escape_roundtrip(s: Seq<char>)
    ensures
        unescaped(escaped(s)) == s,
    decreases s.len(),
{
    if s.len() > 0 {
        lemma_escape_roundtrip(s.skip(1));
        let c = s[0];
        let h = escape_char(c);
        let t = escaped(s.skip(1));
        let e = h + t;
        assert(escaped(s) == e);
        assert(e.skip(h.len() as int) =~= t);
        if c == '&' {
            assert(e.take(5) =~= h);
        } else if c == '<' {
            assert(e.take(4) =~= h);
            if e.len() >= 5 { assert(e.take(5)[1] == e[1]); }
        } else if c == '>' {
            assert(e.take(4) =~= h);
            if e.len() >= 5 { assert(e.take(5)[1] == e[1]); }
            assert(e.take(4)[1] == e[1]);
        } else if c == '"' {
            assert(e.take(6) =~= h);
            if e.len() >= 5 { assert(e.take(5)[1] == e[1]); }
            assert(e.take(4)[1] == e[1]);
        } else if c == '\'' {
            assert(e.take(5) =~= h);
            assert(e.take(4)[1] == e[1]);
            if e.len() >= 6 { assert(e.take(6)[1] == e[1]); }
        } else {
            assert(e[0] == c);
            if e.len() >= 4 { assert(e.take(4)[0] == e[0]); }
            if e.len() >= 5 { assert(e.take(5)[0] == e[0]); }
            if e.len() >= 6 { assert(e.take(6)[0] == e[0]); }
            assert(e.skip(1) =~= t);
        }
        assert(seq![c] + s.skip(1) =~= s);
    } else {
        assert(escaped(s) =~= Seq::<char>::empty());
    }
}

/// Escaping never changes a text twice apart: different texts have different
/// escaped forms.
pub proof fn lemma_escape_injective(a: Seq<char>, b: Seq<char>)
    requires
        escaped(a) == escaped(b),
    ensures
        a == b,
{
    lemma_escape_roundtrip(a);
    lemma_escape_roundtrip(b);
}

}

verus! {

// ---------------------------------------------------------------------------
// Theme variables
// ---------------------------------------------------------------------------

/// The page with the theme applied: `<html` gains a `data-theme` attribute
/// and `<head>` is followed by a style block declaring the CSS variables.
pub open spec fn themed_html(html: Seq<char>, css_vars: Seq<char>, theme: Seq<char>) -> Seq<char> {
    let attr = "<html "@ + ("data-theme=\""@ + theme + "\""@);
    let style = "<head>\n"@ + ("<style>\n:root {\n"@ + css_vars + "}\n</style>"@);
    replace_all(replace_all(html, "<html"@, attr), "<head>"@, style)
}

/// Injects the theme attribute and the CSS variable block into a page.
pub fn inject_theme_vars(html: &str, css_vars: &str, theme: &str) -> (r: String)
    ensures
        r@ == themed_html(html@, css_vars@, theme@),
{
    proof {
        reveal_strlit("<html");
        reveal_strlit("<head>");
    }
    let mut attr = String::new();
    attr.append("<html ");
    attr.append("data-theme=\"");
    attr.append(theme);
    attr.append("\"");
    let mut style = String::new();
    style.append("<head>\n");
    style.append("<style>\n:root {\n");
    style.append(css_vars);
    style.append("}\n</style>");
    assert(attr@ =~= "<html "@ + ("data-theme=\""@ + theme@ + "\""@));
    assert(style@ =~= "<head>\n"@ + ("<style>\n:root {\n"@ + css_vars@ + "}\n</style>"@));
    let hc = chars_of(html);
    let once = replace_str(hc.as_slice(), "<html", attr.as_str());
    let twice = replace_str(once.as_slice(), "<head>", style.as_str());
    string_of(twice.as_slice())
}

/// A page that has neither `<html` nor `<head>` is left as it is.
pub proof fn lemma_theme_needs_markers(html: Seq<char>, css_vars: Seq<char>, theme: Seq<char>)
    requires
        !contains(html, "<html"@),
        !contains(html, "<head>"@),
    ensures
        themed_html(html, css_vars, theme) == html,
{
    let attr = "<html "@ + ("data-theme=\""@ + theme + "\""@);
    let style = "<head>\n"@ + ("<style>\n:root {\n"@ + css_vars + "}\n</style>"@);
    crate::text::lemma_replace_absent(html, "<html"@, attr);
    crate::text::lemma_replace_absent(html, "<head>"@, style);
}

// ---------------------------------------------------------------------------
// First image of a post
// ---------------------------------------------------------------------------

/// The URL of a block that is an image with a non-empty URL.
pub open spec fn image_url_of(block: JsonVal) -> Option<Seq<char>> {
    match opt_as_str(val_get(block, "block_type"@)) {
        Some(t) => if t == "image"@ {
            match opt_as_str(match val_get(block, "content"@) {
                Some(c) => val_get(c, "url"@),
                None => None,
            }) {
                Some(u) => if u.len() > 0 { Some(u) } else { None },
                None => None,
            }
        } else {
            None
        },
        None => None,
    }
}

/// The URL of the first image block among `items` that has one.
pub open spec fn first_image_in(items: Seq<JsonVal>) -> Option<Seq<char>>
    decreases items.len(),
{
    if items.len() == 0 {
        None
    } else {
        match image_url_of(items[0]) {
            Some(u) => Some(u),
            None => first_image_in(items.skip(1)),
        }
    }
}

/// The URL of the first image block of some content, if any.
pub open spec fn first_image(content: JsonVal) -> Option<Seq<char>> {
    match content {
        JsonVal::Array(items) => first_image_in(items),
        _ => None,
    }
}

fn image_url_exec(block: &Json) -> (r: Option<String>)
    ensures
        r matches Some(u) ==> image_url_of(block@) == Some(u@),
        r is None ==> image_url_of(block@) is None,
{
    match block.get("block_type") {
        Some(t) => match t.as_str() {
            Some(ts) => {
                let tc = chars_of(ts);
                if chars_eq_str(tc.as_slice(), "image") {
                    match block.get("content") {
                        Some(c) => match c.get("url") {
                            Some(u) => match u.as_str() {
                                Some(us) => {
                                    let uc = chars_of(us);
                                    if uc.len() > 0 {
                                        Some(String::from_str(us))
                                    } else {
                                        None
                                    }
                                },
                                None => None,
                            },
                            None => None,
                        },
                        None => None,
                    }
                } else {
                    None
                }
            },
            None => None,
        },
        None => None,
    }
}

/// The URL of the first image block of a post's content: the picture to
/// show for a post that names no featured image.
pub fn extract_first_image(content: &Json) -> (r: Option<String>)
    ensures
        r matches Some(u) ==> first_image(content@) == Some(u@),
        r is None ==> first_image(content@) is None,
{
    match content {
        Json::Array(v) => {
            let ghost items = json_vals(v@);
            proof {
                lemma_json_vals(v@);
                assert(items.skip(0) =~= items);
            }
            for i in 0..v.len()
                invariant
                    items == json_vals(v@),
                    items.len() == v@.len(),
                    forall|k: int| 0 <= k < v@.len() ==> #[trigger] items[k] == v@[k]@,
                    first_image(content@) == first_image_in(items),
                    first_image_in(items) == first_image_in(items.skip(i as int)),
            {
                assert(items.skip(i as int)[0] == items[i as int]);
                assert(items.skip(i as int).skip(1) =~= items.skip(i + 1));
                match image_url_exec(&v[i]) {
                    Some(u) => {
                        return Some(u);
                    },
                    None => {},
                }
            }
            None
        },
        _ => None,
    }
}

}

verus! {

// ---------------------------------------------------------------------------
// Configuration merging
// ---------------------------------------------------------------------------

/// `a` comes before `b` in the order of JSON object keys (code point by code
/// point, a proper prefix first).
pub open spec fn key_lt(a: Seq<char>, b: Seq<char>) -> bool
    decreases a.len(),
{
    if b.len() == 0 {
        false
    } else if a.len() == 0 {
        true
    } else if (a[0] as u32) < (b[0] as u32) {
        true
    } else if a[0] == b[0] {
        key_lt(a.skip(1), b.skip(1))
    } else {
        false
    }
}

/// The entries of an object after setting key `k` to `v`: an entry with that
/// key has its value replaced in place, otherwise the entry goes before the
/// first entry with a greater key, which keeps ordered keys ordered.
pub open spec fn entries_insert(es: Seq<(Seq<char>, JsonVal)>, k: Seq<char>, v: JsonVal) -> Seq<(Seq<char>, JsonVal)>
    decreases es.len(),
{
    if es.len() == 0 {
        seq![(k, v)]
    } else if es[0].0 == k {
        seq![(k, v)] + es.skip(1)
    } else if key_lt(k, es[0].0) {
        seq![(k, v)] + es
    } else {
        seq![es[0]] + entries_insert(es.skip(1), k, v)
    }
}

/// The entries of `base` after setting, in order, every entry of `over`.
pub open spec fn entries_override(base: Seq<(Seq<char>, JsonVal)>, over: Seq<(Seq<char>, JsonVal)>) -> Seq<(Seq<char>, JsonVal)>
    decreases over.len(),
{
    if over.len() == 0 {
        base
    } else {
        let prev = entries_override(base, over.drop_last());
        entries_insert(prev, over.last().0, over.last().1)
    }
}

/// A template's default configuration with a site's configuration applied:
/// two objects merge key by key with the site's values winning; otherwise
/// the site's configuration replaces the default unless it is `null`.
pub open spec fn merged_config(default: JsonVal, site: JsonVal) -> JsonVal {
    match (default, site) {
        (JsonVal::Object(d), JsonVal::Object(s)) => JsonVal::Object(entries_override(d, s)),
        _ => if site is Null {
            default
        } else {
            site
        },
    }
}

/// Whether `a` comes before `b` in the order of object keys.
fn key_lt_exec(a: &[char], b: &[char]) -> (r: bool)
    ensures
        r == key_lt(a@, b@),
{
    let mut i: usize = 0;
    assert(a@.skip(0) =~= a@);
    assert(b@.skip(0) =~= b@);
    while i < a.len() && i < b.len() && a[i] == b[i]
        invariant
            i <= a.len(),
            i <= b.len(),
            key_lt(a@, b@) == key_lt(a@.skip(i as int), b@.skip(i as int)),
        decreases a.len() - i,
    {
        assert(a@.skip(i as int).skip(1) =~= a@.skip(i + 1));
        assert(b@.skip(i as int).skip(1) =~= b@.skip(i + 1));
        i = i + 1;
    }
    if i == b.len() {
        false
    } else if i == a.len() {
        true
    } else {
        assert(a@.skip(i as int)[0] == a@[i as int]);
        assert(b@.skip(i as int)[0] == b@[i as int]);
        (a[i] as u32) < (b[i] as u32)
    }
}

/// Sets key `k` to `v` in the entries of an object.
fn entries_insert_exec(es: &mut Vec<(String, Json)>, k: String, v: Json)
    ensures
        json_entries(final(es)@) == entries_insert(json_entries(old(es)@), k@, v@),
{
    let ghost e0 = json_entries(es@);
    proof {
        lemma_json_entries(es@);
        assert(e0.skip(0) =~= e0);
        assert(e0.take(0) =~= Seq::<(Seq<char>, JsonVal)>::empty());
    }
    let kc = chars_of(k.as_str());
    let mut i: usize = 0;
    while i < es.len()
        invariant
            kc@ == k@,
            e0 == json_entries(es@),
            e0.len() == es@.len(),
            forall|j: int| 0 <= j < es@.len() ==> #[trigger] e0[j] == (es@[j].0@, es@[j].1@),
            i <= es.len(),
            entries_insert(e0, k@, v@) == e0.take(i as int) + entries_insert(e0.skip(i as int), k@, v@),
        ensures
            kc@ == k@,
            e0 == json_entries(es@),
            e0.len() == es@.len(),
            forall|j: int| 0 <= j < es@.len() ==> #[trigger] e0[j] == (es@[j].0@, es@[j].1@),
            i <= es.len(),
            entries_insert(e0, k@, v@) == e0.take(i as int) + entries_insert(e0.skip(i as int), k@, v@),
            i < es.len() ==> (e0[i as int].0 == k@ || key_lt(k@, e0[i as int].0)),
        decreases es.len() - i,
    {
        let ec = chars_of(es[i].0.as_str());
        assert(e0.skip(i as int)[0] == e0[i as int]);
        if crate::text::chars_eq(ec.as_slice(), kc.as_slice()) || key_lt_exec(kc.as_slice(), ec.as_slice()) {
            break;
        }
        assert(e0.skip(i as int).skip(1) =~= e0.skip(i + 1));
        assert(e0.take(i + 1) =~= e0.take(i as int) + seq![e0[i as int]]);
        i = i + 1;
    }
    let ghost rest = e0.skip(i as int);
    if i == es.len() {
        es.push((k, v));
        proof {
            lemma_json_entries(es@);
            assert(e0.take(i as int) =~= e0);
            assert(json_entries(es@) =~= e0 + seq![(k@, v@)]);
        }
    } else {
        let ec = chars_of(es[i].0.as_str());
        assert(rest[0] == e0[i as int]);
        if crate::text::chars_eq(ec.as_slice(), kc.as_slice()) {
            let ghost before = es@;
            es.remove(i);
            es.insert(i, (k, v));
            proof {
                lemma_json_entries(es@);
                assert(es@ =~= before.update(i as int, es@[i as int]));
                assert(rest.skip(1) =~= e0.skip(i + 1));
                assert(json_entries(es@) =~= e0.take(i as int) + (seq![(k@, v@)] + rest.skip(1)));
            }
        } else {
            let ghost before = es@;
            es.insert(i, (k, v));
            proof {
                lemma_json_entries(es@);
                assert(json_entries(es@) =~= e0.take(i as int) + (seq![(k@, v@)] + rest));
            }
        }
    }
}

/// Applies a site's configuration to a template's default configuration.
pub fn merge_configs(default_config: &Json, site_config: &Json) -> (r: Json)
    ensures
        r@ == merged_config(default_config@, site_config@),
{
    match (default_config, site_config) {
        (Json::Object(d), Json::Object(s)) => {
            let dj = default_config.deep_clone();
            let mut merged: Vec<(String, Json)> = match dj {
                Json::Object(m) => m,
                _ => Vec::new(),
            };
            assert(json_entries(merged@) == json_entries(d@));
            assert(json_entries(s@) == match site_config@ { JsonVal::Object(x) => x, _ => Seq::empty() });
            let ghost se = json_entries(s@);
            proof {
                lemma_json_entries(s@);
                assert(se.take(0) =~= Seq::<(Seq<char>, JsonVal)>::empty());
            }
            for i in 0..s.len()
                invariant
                    se == json_entries(s@),
                    se.len() == s@.len(),
                    forall|j: int| 0 <= j < s@.len() ==> #[trigger] se[j] == (s@[j].0@, s@[j].1@),
                    json_entries(merged@) == entries_override(json_entries(d@), se.take(i as int)),
            {
                let key = s[i].0.clone();
                let val = s[i].1.deep_clone();
                entries_insert_exec(&mut merged, key, val);
                assert(se.take(i + 1).drop_last() =~= se.take(i as int));
            }
            assert(se.take(s.len() as int) =~= se);
            Json::Object(merged)
        },
        _ => {
            match site_config {
                Json::Null => default_config.deep_clone(),
                _ => site_config.deep_clone(),
            }
        },
    }
}

/// Merging with a `null` site configuration keeps the template's defaults.
pub proof fn lemma_merge_null(default: JsonVal)
    ensures
        merged_config(default, JsonVal::Null) == default,
{
}

/// The keys of the entries are pairwise distinct, as in a parsed object.
pub open spec fn keys_distinct(es: Seq<(Seq<char>, JsonVal)>) -> bool {
    forall|i: int, j: int| 0 <= i < j < es.len() ==> #[trigger] es[i].0 != #[trigger] es[j].0
}

/// Setting a key makes it read back the value set and leaves every other
/// key reading as before.
pub proof fn lemma_insert_get(es: Seq<(Seq<char>, JsonVal)>, k0: Seq<char>, v0: JsonVal, k: Seq<char>)
    ensures
        entries_get(entries_insert(es, k0, v0), k) == (if k == k0 {
            Some(v0)
        } else {
            entries_get(es, k)
        }),
    decreases es.len(),
{
    let r = entries_insert(es, k0, v0);
    if es.len() == 0 {
        assert(r =~= seq![(k0, v0)]);
        assert(r[0] == (k0, v0));
        assert(r.skip(1) =~= Seq::<(Seq<char>, JsonVal)>::empty());
        assert(entries_get(r.skip(1), k) is None);
    } else if es[0].0 == k0 {
        assert(r == seq![(k0, v0)] + es.skip(1));
        assert(r[0] == (k0, v0));
        assert(r.skip(1) =~= es.skip(1));
    } else if key_lt(k0, es[0].0) {
        assert(r == seq![(k0, v0)] + es);
        assert(r[0] == (k0, v0));
        assert(r.skip(1) =~= es);
    } else {
        lemma_insert_get(es.skip(1), k0, v0, k);
        assert(r == seq![es[0]] + entries_insert(es.skip(1), k0, v0));
        assert(r[0] == es[0]);
        assert(r.skip(1) =~= entries_insert(es.skip(1), k0, v0));
    }
}

/// Reading a key after appending an entry: an earlier entry with the key
/// still wins.
pub proof fn lemma_push_get(es: Seq<(Seq<char>, JsonVal)>, e: (Seq<char>, JsonVal), k: Seq<char>)
    ensures
        entries_get(es.push(e), k) == (match entries_get(es, k) {
            Some(v) => Some(v),
            None => if e.0 == k {
                Some(e.1)
            } else {
                None
            },
        }),
    decreases es.len(),
{
    if es.len() == 0 {
        assert(es.push(e)[0] == e);
        assert(es.push(e).skip(1) =~= Seq::<(Seq<char>, JsonVal)>::empty());
        assert(entries_get(es.push(e).skip(1), k) is None);
    } else {
        assert(es.push(e)[0] == es[0]);
        assert(es.push(e).skip(1) =~= es.skip(1).push(e));
        lemma_push_get(es.skip(1), e, k);
    }
}

/// With distinct keys, a key that only the last entry has reads as that
/// entry's value, and any other key reads as without the last entry.
proof fn lemma_last_get(s: Seq<(Seq<char>, JsonVal)>, k: Seq<char>)
    requires
        s.len() > 0,
        keys_distinct(s),
    ensures
        entries_get(s, k) == (if k == s.last().0 {
            Some(s.last().1)
        } else {
            entries_get(s.drop_last(), k)
        }),
{
    let p = s.drop_last();
    assert(p.push(s.last()) =~= s);
    lemma_push_get(p, s.last(), k);
    if k == s.last().0 {
        lemma_get_absent(p, k);
    }
}

/// A key that no entry has reads as nothing.
proof fn lemma_get_absent(es: Seq<(Seq<char>, JsonVal)>, k: Seq<char>)
    requires
        forall|i: int| 0 <= i < es.len() ==> #[trigger] es[i].0 != k,
    ensures
        entries_get(es, k) is None,
    decreases es.len(),
{
    if es.len() > 0 {
        assert(es[0].0 != k);
        assert forall|i: int| 0 <= i < es.skip(1).len() implies #[trigger] es.skip(1)[i].0 != k by {
            assert(es.skip(1)[i] == es[i + 1]);
        }
        lemma_get_absent(es.skip(1), k);
    }
}

/// When a template's default configuration and a site's configuration are
/// both objects (the site's with distinct keys, as parsed JSON has), every
/// key of the merged configuration reads as the site's value when the site
/// sets it, and as the default otherwise.
pub proof fn lemma_merge_site_wins(d: Seq<(Seq<char>, JsonVal)>, s: Seq<(Seq<char>, JsonVal)>, k: Seq<char>)
    requires
        keys_distinct(s),
    ensures
        val_get(merged_config(JsonVal::Object(d), JsonVal::Object(s)), k) == (match entries_get(s, k) {
            Some(v) => Some(v),
            None => entries_get(d, k),
        }),
    decreases s.len(),
{
    if s.len() > 0 {
        let p = s.drop_last();
        assert(keys_distinct(p)) by {
            assert forall|i: int, j: int| 0 <= i < j < p.len() implies #[trigger] p[i].0 != #[trigger] p[j].0 by {
                assert(p[i] == s[i] && p[j] == s[j]);
            }
        }
        lemma_merge_site_wins(d, p, k);
        lemma_insert_get(entries_override(d, p), s.last().0, s.last().1, k);
        lemma_last_get(s, k);
    }
}

}

verus! {

// ---------------------------------------------------------------------------
// Theme CSS variables
// ---------------------------------------------------------------------------

/// Which entries of a configuration object become CSS variables.
pub enum KeyFilter {
    /// Every entry.
    All,
    /// Entries whose key mentions a color, a background or text.
    ColorLike,
    /// Entries whose key mentions a font.
    FontLike,
}

/// Whether an entry with key `key` is selected by `f`; keys are compared in
/// lowercase.
pub open spec fn key_selected(f: KeyFilter, key: Seq<char>) -> bool {
    match f {
        KeyFilter::All => true,
        KeyFilter::ColorLike => contains(lowercase(key), "color"@) || contains(lowercase(key), "background"@)
            || contains(lowercase(key), "text"@),
        KeyFilter::FontLike => contains(lowercase(key), "font"@),
    }
}

/// One CSS variable declaration per selected entry whose value is a text,
/// `  --{prefix}{key}: {value};` on a line, in the order of the entries.
pub open spec fn css_var_lines(es: Seq<(Seq<char>, JsonVal)>, prefix: Seq<char>, f: KeyFilter) -> Seq<char>
    decreases es.len(),
{
    if es.len() == 0 {
        Seq::empty()
    } else {
        let prev = css_var_lines(es.drop_last(), prefix, f);
        if key_selected(f, es.last().0) {
            match val_as_str(es.last().1) {
                Some(c) => prev + ("  --"@ + prefix + es.last().0 + ": "@ + c + ";\n"@),
                None => prev,
            }
        } else {
            prev
        }
    }
}

/// The CSS variables of the entries of an object value (none for other values).
pub open spec fn object_css_vars(v: Option<JsonVal>, prefix: Seq<char>, f: KeyFilter) -> Seq<char> {
    match v {
        Some(JsonVal::Object(es)) => css_var_lines(es, prefix, f),
        _ => Seq::empty(),
    }
}

/// The color palette of a theme: `dark` (or `light`) in the configuration,
/// or else `colors`.
pub open spec fn theme_palette(config: JsonVal, theme: Seq<char>) -> Option<JsonVal> {
    let primary = if theme == "dark"@ {
        val_get(config, "dark"@)
    } else {
        val_get(config, "light"@)
    };
    match primary {
        Some(p) => Some(p),
        None => val_get(config, "colors"@),
    }
}

/// The CSS variables of a theme: the palette, the color-like top-level
/// entries, the `fonts` entries (as `font-` variables) and the font-like
/// top-level entries, in this order.
pub open spec fn theme_css(config: JsonVal, theme: Seq<char>) -> Seq<char> {
    object_css_vars(theme_palette(config, theme), ""@, KeyFilter::All) + object_css_vars(
        Some(config),
        ""@,
        KeyFilter::ColorLike,
    ) + object_css_vars(val_get(config, "fonts"@), "font-"@, KeyFilter::All) + object_css_vars(
        Some(config),
        ""@,
        KeyFilter::FontLike,
    )
}

fn key_selected_exec(f: &KeyFilter, key: &str) -> (r: bool)
    ensures
        r == key_selected(*f, key@),
{
    match f {
        KeyFilter::All => true,
        KeyFilter::ColorLike => {
            let l = to_lowercase(key);
            let lc = chars_of(l.as_str());
            contains_str(lc.as_slice(), "color") || contains_str(lc.as_slice(), "background")
                || contains_str(lc.as_slice(), "text")
        },
        KeyFilter::FontLike => {
            let l = to_lowercase(key);
            let lc = chars_of(l.as_str());
            contains_str(lc.as_slice(), "font")
        },
    }
}

fn push_css_vars(out: &mut String, v: Option<&Json>, prefix: &str, f: KeyFilter)
    ensures
        final(out)@ == old(out)@ + object_css_vars(opt_val(v), prefix@, f),
{
    match v {
        Some(Json::Object(es)) => {
            let ghost e = json_entries(es@);
            let ghost start = out@;
            proof {
                lemma_json_entries(es@);
                assert(e.take(0) =~= Seq::<(Seq<char>, JsonVal)>::empty());
                assert(start + Seq::<char>::empty() =~= start);
            }
            for i in 0..es.len()
                invariant
                    e == json_entries(es@),
                    e.len() == es@.len(),
                    forall|j: int| 0 <= j < es@.len() ==> #[trigger] e[j] == (es@[j].0@, es@[j].1@),
                    out@ == start + css_var_lines(e.take(i as int), prefix@, f),
            {
                assert(e.take(i + 1).drop_last() =~= e.take(i as int));
                assert(e.take(i + 1).last() == e[i as int]);
                if key_selected_exec(&f, es[i].0.as_str()) {
                    match es[i].1.as_str() {
                        Some(c) => {
                            let ghost before = out@;
                            out.append("  --");
                            out.append(prefix);
                            out.append(es[i].0.as_str());
                            out.append(": ");
                            out.append(c);
                            out.append(";\n");
                            assert(out@ =~= before + ("  --"@ + prefix@ + es@[i as int].0@ + ": "@ + c@ + ";\n"@));
                        },
                        None => {},
                    }
                }
            }
            assert(e.take(es.len() as int) =~= e);
        },
        _ => {
            assert(out@ =~= old(out)@ + Seq::<char>::empty());
        },
    }
}

/// The CSS variable declarations of a theme configuration.
pub fn get_theme_css(config: &Json, theme: &str) -> (css: String)
    ensures
        css@ == theme_css(config@, theme@),
{
    let tc = chars_of(theme);
    let primary = if chars_eq_str(tc.as_slice(), "dark") {
        config.get("dark")
    } else {
        config.get("light")
    };
    let palette = match primary {
        Some(p) => Some(p),
        None => config.get("colors"),
    };
    assert(opt_val(palette) == theme_palette(config@, theme@));
    let mut out = String::new();
    push_css_vars(&mut out, palette, "", KeyFilter::All);
    push_css_vars(&mut out, Some(config), "", KeyFilter::ColorLike);
    push_css_vars(&mut out, config.get("fonts"), "font-", KeyFilter::All);
    push_css_vars(&mut out, Some(config), "", KeyFilter::FontLike);
    assert(out@ =~= theme_css(config@, theme@));
    out
}

}

verus! {

// ---------------------------------------------------------------------------
// Content blocks of published pages
// ---------------------------------------------------------------------------

/// The escaped text of member `key` of `c`, or nothing when it is not a text.
pub open spec fn escaped_field(c: Option<JsonVal>, key: Seq<char>) -> Seq<char> {
    match crate::json::opt_get_str(c, key) {
        Some(t) => escaped(t),
        None => Seq::empty(),
    }
}

/// The text of a text-like block: content that is itself a text is taken as
/// it is (it may hold markup), otherwise its `text` member, escaped.
pub open spec fn block_text(c: Option<JsonVal>) -> Seq<char> {
    match opt_as_str(c) {
        Some(s) => s,
        None => escaped_field(c, "text"@),
    }
}

/// The type of a block: `type`, or else `block_type`, when it is a text;
/// `text` otherwise.
pub open spec fn page_block_type(block: JsonVal) -> Seq<char> {
    let tv = match val_get(block, "type"@) {
        Some(t) => Some(t),
        None => val_get(block, "block_type"@),
    };
    match opt_as_str(tv) {
        Some(s) => s,
        None => "text"@,
    }
}

/// The heading level of a block: its `level` when that is an integer, else 2.
pub open spec fn heading_level(block: JsonVal) -> int {
    match val_get(block, "level"@) {
        Some(JsonVal::Number(Some(n))) => n as int,
        _ => 2,
    }
}

/// A heading of the block's level with the escaped `text`.
pub open spec fn page_heading_html(block: JsonVal, c: Option<JsonVal>) -> Seq<char> {
    let level = decimal(heading_level(block));
    "<h"@ + level + ">"@ + escaped(str_field(c, "text"@, ""@)) + "</h"@ + level + ">"@
}

/// A paragraph: nothing for empty text, text with both `<` and `>` as it
/// is, otherwise the text in a `<p>` element.
pub open spec fn page_paragraph_html(c: Option<JsonVal>) -> Seq<char> {
    let text = block_text(c);
    if text.len() == 0 {
        Seq::empty()
    } else if contains(text, "<"@) && contains(text, ">"@) {
        text
    } else {
        "<p>"@ + text + "</p>"@
    }
}

/// Any other block: its text in a `<p>` element, nothing for empty text.
pub open spec fn page_text_html(c: Option<JsonVal>) -> Seq<char> {
    let text = block_text(c);
    if text.len() == 0 {
        Seq::empty()
    } else {
        "<p>"@ + text + "</p>"@
    }
}

/// A figure for an image block whose (escaped) URL is not empty; the
/// escaped `alt` text is also the caption.
pub open spec fn page_image_html(c: Option<JsonVal>) -> Seq<char> {
    let url = match opt_as_str(c) {
        Some(s) => escaped(s),
        None => escaped(str_field(c, "url"@, ""@)),
    };
    let alt = escaped_field(c, "alt"@);
    if url.len() == 0 {
        Seq::empty()
    } else {
        "<figure><img src=\""@ + url + "\" alt=\""@ + alt + "\"><figcaption>"@ + alt + "</figcaption></figure>"@
    }
}

/// A code block with its escaped code, labelled with its language.
pub open spec fn page_code_html(c: Option<JsonVal>) -> Seq<char> {
    "<pre><code class=\"language-"@ + str_field(c, "language"@, ""@) + "\">"@ + escaped(
        str_field(c, "code"@, ""@),
    ) + "</code></pre>"@
}

/// A quotation with its escaped text and citation.
pub open spec fn page_quote_html(c: Option<JsonVal>) -> Seq<char> {
    "<blockquote>"@ + escaped_field(c, "text"@) + "<cite>"@ + escaped_field(c, "citation"@)
        + "</cite></blockquote>"@
}

/// The background of a hero block: the image darkened, or the gradient.
pub open spec fn page_hero_background(bg: Seq<char>) -> Seq<char> {
    if bg.len() > 0 {
        "background-image: linear-gradient(rgba(0,0,0,0.6), rgba(0,0,0,0.6)), url('"@ + bg
            + "'); background-size: cover; background-position: center;"@
    } else {
        "background: linear-gradient(135deg, #667eea 0%, #764ba2 100%);"@
    }
}

/// The call to action of a hero block, when it has a text.
pub open spec fn page_hero_cta(c: Option<JsonVal>) -> Seq<char> {
    let text = str_field(c, "ctaText"@, ""@);
    if text.len() > 0 {
        "<a href=\""@ + str_field(c, "ctaLink"@, "#"@) + "\" class=\"button\">"@ + text + "</a>"@
    } else {
        Seq::empty()
    }
}

/// A hero block: escaped title and subtitle over its background, and the
/// call to action.
pub open spec fn page_hero_html(c: Option<JsonVal>) -> Seq<char> {
    "<div class=\"hero-section\" style=\""@ + page_hero_background(str_field(c, "backgroundImage"@, ""@))
        + " padding: 80px 20px; text-align: center; color: white; border-radius: 12px; margin: 20px 0;\">\n                            <h1>"@
        + escaped(str_field(c, "title"@, ""@)) + "</h1>\n                            <p>"@ + escaped(
        str_field(c, "subtitle"@, ""@),
    ) + "</p>\n                            "@ + page_hero_cta(c) + "\n                        </div>"@
}

/// The identifier of a YouTube video: the `v=` parameter up to the next
/// `&`, or else the last path segment up to a `?`.
pub open spec fn page_youtube_id(url: Seq<char>) -> Seq<char> {
    if contains(url, "v="@) {
        before_first(
            match second_piece(url, "v="@) {
                Some(p) => p,
                None => Seq::empty(),
            },
            "&"@,
        )
    } else {
        before_first(after_last(url, '/'), "?"@)
    }
}

/// The player for a video URL: YouTube and Vimeo embeds, an HTML5 player
/// for `.mp4` files, nothing otherwise.
pub open spec fn page_video_embed(url: Seq<char>) -> Seq<char> {
    if contains(url, "youtube.com"@) || contains(url, "youtu.be"@) {
        "<iframe width=\"100%\" height=\"400\" src=\"https://www.youtube.com/embed/"@ + page_youtube_id(url)
            + "\" frameborder=\"0\" allowfullscreen></iframe>"@
    } else if contains(url, "vimeo.com"@) {
        "<iframe width=\"100%\" height=\"400\" src=\"https://player.vimeo.com/video/"@ + after_last(url, '/')
            + "\" frameborder=\"0\" allowfullscreen></iframe>"@
    } else if has_suffix(url, ".mp4"@) {
        "<video width=\"100%\" controls><source src=\""@ + url
            + "\" type=\"video/mp4\">Your browser does not support video.</video>"@
    } else {
        Seq::empty()
    }
}

/// A video block: the player and the escaped caption; nothing without a URL.
pub open spec fn page_video_html(c: Option<JsonVal>) -> Seq<char> {
    let url = str_field(c, "url"@, ""@);
    let caption = escaped(str_field(c, "caption"@, ""@));
    if url.len() > 0 {
        "<div class=\"video-block\">"@ + page_video_embed(url) + (if caption.len() > 0 {
            "<p class=\"caption\">"@ + caption + "</p>"@
        } else {
            Seq::empty()
        })
    } else {
        Seq::empty()
    }
}

/// An image of a column, when it has a URL.
pub open spec fn column_image(url: Seq<char>) -> Seq<char> {
    if url.len() > 0 {
        "<img src=\""@ + url + "\" style=\"max-width:100%%; border-radius:8px;\">"@
    } else {
        Seq::empty()
    }
}

/// A paragraph of a column, when it has (escaped) text.
pub open spec fn column_text(text: Seq<char>) -> Seq<char> {
    if text.len() > 0 {
        "<p>"@ + text + "</p>"@
    } else {
        Seq::empty()
    }
}

/// A two-column block: each column's image and escaped text.
pub open spec fn page_columns_html(c: Option<JsonVal>) -> Seq<char> {
    "<div class=\"columns-block\" style=\"display: grid; grid-template-columns: 1fr 1fr; gap: 2rem; margin: 2rem 0;\">\n                            <div class=\"left-col\">\n                                "@
        + column_image(str_field(c, "leftImage"@, ""@)) + " "@ + column_text(escaped_field(c, "left"@))
        + "\n                            </div>\n                            <div class=\"right-col\">\n                                "@
        + column_image(str_field(c, "rightImage"@, ""@)) + " "@ + column_text(escaped_field(c, "right"@))
        + "\n                            </div>\n                        </div>"@
}

/// The HTML of one block of a published page, by its type.
pub open spec fn page_block_html(block: JsonVal) -> Seq<char> {
    let bt = page_block_type(block);
    let c = val_get(block, "content"@);
    if bt == "heading"@ {
        page_heading_html(block, c)
    } else if bt == "paragraph"@ {
        page_paragraph_html(c)
    } else if bt == "image"@ {
        page_image_html(c)
    } else if bt == "code"@ {
        page_code_html(c)
    } else if bt == "quote"@ {
        page_quote_html(c)
    } else if bt == "hero"@ {
        page_hero_html(c)
    } else if bt == "video"@ {
        page_video_html(c)
    } else if bt == "columns"@ {
        page_columns_html(c)
    } else {
        page_text_html(c)
    }
}

/// The HTML of the blocks of a JSON array for a published page, one block
/// per line; nothing for any other value.
pub open spec fn page_blocks_html(content: JsonVal) -> Seq<char> {
    match content {
        JsonVal::Array(items) => join(items.map_values(|b: JsonVal| page_block_html(b)), "\n"@),
        _ => Seq::empty(),
    }
}

/// The call to action of a published hero block: a hero (named by
/// `block_type`) whose content has a non-empty `ctaText` leads, through a
/// `button` link, to its `ctaLink`, or to `#` when it has none.
pub proof fn lemma_hero_button(b: JsonVal, cv: JsonVal, text: Seq<char>, link: Option<Seq<char>>)
    requires
        val_get(b, "type"@) is None,
        val_get(b, "block_type"@) == Some(JsonVal::Str("hero"@)),
        val_get(b, "content"@) == Some(cv),
        val_get(cv, "ctaText"@) == Some(JsonVal::Str(text)),
        text.len() > 0,
        match link {
            Some(u) => val_get(cv, "ctaLink"@) == Some(JsonVal::Str(u)),
            None => val_get(cv, "ctaLink"@) is None,
        },
    ensures
        contains(
            page_blocks_html(JsonVal::Array(seq![b])),
            "<a href=\""@ + (match link {
                Some(u) => u,
                None => "#"@,
            }) + "\" class=\"button\">"@ + text + "</a>"@,
        ),
{
    reveal_strlit("hero");
    reveal_strlit("heading");
    reveal_strlit("paragraph");
    reveal_strlit("image");
    reveal_strlit("code");
    reveal_strlit("quote");
    let f = |x: JsonVal| page_block_html(x);
    assert(seq![b].map_values(f) =~= seq![page_block_html(b)]);
    assert(page_block_type(b) == "hero"@);
    assert("hero"@ != "heading"@ && "hero"@ != "paragraph"@ && "hero"@ != "image"@ && "hero"@ != "quote"@);
    assert("hero"@ != "code"@) by {
        assert("hero"@[0] != "code"@[0]);
    }
    let h = page_hero_html(Some(cv));
    assert(page_block_html(b) == h);
    let cta = "<a href=\""@ + (match link {
        Some(u) => u,
        None => "#"@,
    }) + "\" class=\"button\">"@ + text + "</a>"@;
    assert(page_hero_cta(Some(cv)) == cta);
    let end = "\n                        </div>"@;
    let start = h.len() - end.len() - cta.len();
    assert(h.subrange(start, start + cta.len()) =~= cta);
    lemma_occurs_contains(h, cta, start);
}

/// Every block of a published page renders on its own: the blocks of two
/// non-empty lists render as the blocks of each, joined by one line break;
/// no blocks render as nothing.
pub proof fn lemma_page_blocks_concat(a: Seq<JsonVal>, b: Seq<JsonVal>)
    ensures
        page_blocks_html(JsonVal::Array(Seq::empty())) == Seq::<char>::empty(),
        a.len() > 0 && b.len() > 0 ==> page_blocks_html(JsonVal::Array(a + b)) == page_blocks_html(
            JsonVal::Array(a),
        ) + "\n"@ + page_blocks_html(JsonVal::Array(b)),
{
    let f = |x: JsonVal| page_block_html(x);
    assert(Seq::<JsonVal>::empty().map_values(f) =~= Seq::<Seq<char>>::empty());
    if a.len() > 0 && b.len() > 0 {
        assert((a + b).map_values(f) =~= a.map_values(f) + b.map_values(f));
        lemma_join_concat(a.map_values(f), b.map_values(f), "\n"@);
    }
}

fn escaped_field_exec(c: Option<&Json>, key: &str) -> (r: String)
    ensures
        r@ == escaped_field(opt_val(c), key@),
{
    let mut out = String::new();
    match crate::json::get_str_field(c, key) {
        Some(t) => {
            push_escaped(&mut out, t.as_slice());
            assert(out@ =~= escaped(t@));
        },
        None => {},
    }
    out
}

fn block_text_exec(c: Option<&Json>) -> (r: Vec<char>)
    ensures
        r@ == block_text(opt_val(c)),
{
    match c {
        Some(j) => match j.as_str() {
            Some(s) => {
                return chars_of(s);
            },
            None => {},
        },
        None => {},
    }
    let e = escaped_field_exec(c, "text");
    chars_of(e.as_str())
}

fn page_heading_exec(block: &Json, c: Option<&Json>) -> (r: String)
    ensures
        r@ == page_heading_html(block@, opt_val(c)),
{
    let level: i64 = match block.get("level") {
        Some(l) => match l.as_i64() {
            Some(n) => n,
            None => 2,
        },
        None => 2,
    };
    assert(level == heading_level(block@));
    let text = str_field_or(c, "text", "");
    let mut out = String::new();
    out.append("<h");
    crate::text::push_decimal(&mut out, level);
    out.append(">");
    push_escaped(&mut out, text.as_slice());
    out.append("</h");
    crate::text::push_decimal(&mut out, level);
    out.append(">");
    assert(out@ =~= page_heading_html(block@, opt_val(c)));
    out
}

fn page_paragraph_exec(c: Option<&Json>, check_markup: bool) -> (r: String)
    ensures
        check_markup ==> r@ == page_paragraph_html(opt_val(c)),
        !check_markup ==> r@ == page_text_html(opt_val(c)),
{
    let text = block_text_exec(c);
    if text.len() == 0 {
        return String::new();
    }
    if check_markup && contains_str(text.as_slice(), "<") && contains_str(text.as_slice(), ">") {
        return string_of(text.as_slice());
    }
    let mut out = String::new();
    out.append("<p>");
    push_chars(&mut out, text.as_slice());
    out.append("</p>");
    assert(out@ =~= "<p>"@ + text@ + "</p>"@);
    out
}

fn page_image_exec(c: Option<&Json>) -> (r: String)
    ensures
        r@ == page_image_html(opt_val(c)),
{
    let mut url = String::new();
    let mut direct = false;
    match c {
        Some(j) => match j.as_str() {
            Some(s) => {
                let sc = chars_of(s);
                push_escaped(&mut url, sc.as_slice());
                direct = true;
            },
            None => {},
        },
        None => {},
    }
    if !direct {
        let u = str_field_or(c, "url", "");
        push_escaped(&mut url, u.as_slice());
    }
    assert(url@ =~= match opt_as_str(opt_val(c)) {
        Some(s) => escaped(s),
        None => escaped(str_field(opt_val(c), "url"@, ""@)),
    });
    let alt = escaped_field_exec(c, "alt");
    let uc = chars_of(url.as_str());
    if uc.len() == 0 {
        return String::new();
    }
    let mut out = String::new();
    out.append("<figure><img src=\"");
    out.append(url.as_str());
    out.append("\" alt=\"");
    out.append(alt.as_str());
    out.append("\"><figcaption>");
    out.append(alt.as_str());
    out.append("</figcaption></figure>");
    assert(out@ =~= page_image_html(opt_val(c)));
    out
}

fn page_code_exec(c: Option<&Json>) -> (r: String)
    ensures
        r@ == page_code_html(opt_val(c)),
{
    let lang = str_field_or(c, "language", "");
    let code = str_field_or(c, "code", "");
    let mut out = String::new();
    out.append("<pre><code class=\"language-");
    push_chars(&mut out, lang.as_slice());
    out.append("\">");
    push_escaped(&mut out, code.as_slice());
    out.append("</code></pre>");
    assert(out@ =~= page_code_html(opt_val(c)));
    out
}

fn page_quote_exec(c: Option<&Json>) -> (r: String)
    ensures
        r@ == page_quote_html(opt_val(c)),
{
    let text = escaped_field_exec(c, "text");
    let citation = escaped_field_exec(c, "citation");
    let mut out = String::new();
    out.append("<blockquote>");
    out.append(text.as_str());
    out.append("<cite>");
    out.append(citation.as_str());
    out.append("</cite></blockquote>");
    assert(out@ =~= page_quote_html(opt_val(c)));
    out
}

fn page_hero_exec(c: Option<&Json>) -> (r: String)
    ensures
        r@ == page_hero_html(opt_val(c)),
{
    let title = str_field_or(c, "title", "");
    let subtitle = str_field_or(c, "subtitle", "");
    let bg = str_field_or(c, "backgroundImage", "");
    let cta_text = str_field_or(c, "ctaText", "");
    let cta_link = str_field_or(c, "ctaLink", "#");
    let mut out = String::new();
    out.append("<div class=\"hero-section\" style=\"");
    if bg.len() > 0 {
        out.append("background-image: linear-gradient(rgba(0,0,0,0.6), rgba(0,0,0,0.6)), url('");
        push_chars(&mut out, bg.as_slice());
        out.append("'); background-size: cover; background-position: center;");
    } else {
        out.append("background: linear-gradient(135deg, #667eea 0%, #764ba2 100%);");
    }
    out.append(" padding: 80px 20px; text-align: center; color: white; border-radius: 12px; margin: 20px 0;\">\n                            <h1>");
    push_escaped(&mut out, title.as_slice());
    out.append("</h1>\n                            <p>");
    push_escaped(&mut out, subtitle.as_slice());
    out.append("</p>\n                            ");
    if cta_text.len() > 0 {
        out.append("<a href=\"");
        push_chars(&mut out, cta_link.as_slice());
        out.append("\" class=\"button\">");
        push_chars(&mut out, cta_text.as_slice());
        out.append("</a>");
    }
    out.append("\n                        </div>");
    assert(out@ =~= page_hero_html(opt_val(c)));
    out
}

fn page_youtube_id_exec(url: &[char]) -> (r: Vec<char>)
    ensures
        r@ == page_youtube_id(url@),
{
    let vpat = chars_of("v=");
    if crate::text::contains_exec(url, vpat.as_slice()) {
        let piece = match second_piece_exec(url, vpat.as_slice()) {
            Some(p) => p,
            None => Vec::new(),
        };
        let amp = chars_of("&");
        before_first_exec(piece.as_slice(), amp.as_slice())
    } else {
        let last = after_last_exec(url, '/');
        let q = chars_of("?");
        before_first_exec(last.as_slice(), q.as_slice())
    }
}

fn page_video_exec(c: Option<&Json>) -> (r: String)
    ensures
        r@ == page_video_html(opt_val(c)),
{
    let url = str_field_or(c, "url", "");
    let cap_raw = str_field_or(c, "caption", "");
    let mut caption = String::new();
    push_escaped(&mut caption, cap_raw.as_slice());
    assert(caption@ =~= escaped(cap_raw@));
    if url.len() == 0 {
        return String::new();
    }
    let mut out = String::new();
    out.append("<div class=\"video-block\">");
    if contains_str(url.as_slice(), "youtube.com") || contains_str(url.as_slice(), "youtu.be") {
        let id = page_youtube_id_exec(url.as_slice());
        out.append("<iframe width=\"100%\" height=\"400\" src=\"https://www.youtube.com/embed/");
        push_chars(&mut out, id.as_slice());
        out.append("\" frameborder=\"0\" allowfullscreen></iframe>");
    } else if contains_str(url.as_slice(), "vimeo.com") {
        let id = after_last_exec(url.as_slice(), '/');
        out.append("<iframe width=\"100%\" height=\"400\" src=\"https://player.vimeo.com/video/");
        push_chars(&mut out, id.as_slice());
        out.append("\" frameborder=\"0\" allowfullscreen></iframe>");
    } else if crate::text::ends_with_str(url.as_slice(), ".mp4") {
        out.append("<video width=\"100%\" controls><source src=\"");
        push_chars(&mut out, url.as_slice());
        out.append("\" type=\"video/mp4\">Your browser does not support video.</video>");
    }
    let cc = chars_of(caption.as_str());
    if cc.len() > 0 {
        out.append("<p class=\"caption\">");
        out.append(caption.as_str());
        out.append("</p>");
    }
    assert(out@ =~= page_video_html(opt_val(c)));
    out
}

fn push_column(out: &mut String, img: &[char], text: &str)
    ensures
        final(out)@ == old(out)@ + column_image(img@) + " "@ + column_text(text@),
{
    let ghost before = out@;
    if img.len() > 0 {
        out.append("<img src=\"");
        push_chars(out, img);
        out.append("\" style=\"max-width:100%%; border-radius:8px;\">");
    }
    out.append(" ");
    let tc = chars_of(text);
    if tc.len() > 0 {
        out.append("<p>");
        out.append(text);
        out.append("</p>");
    }
    assert(out@ =~= before + column_image(img@) + " "@ + column_text(text@));
}

fn page_columns_exec(c: Option<&Json>) -> (r: String)
    ensures
        r@ == page_columns_html(opt_val(c)),
{
    let left = escaped_field_exec(c, "left");
    let right = escaped_field_exec(c, "right");
    let left_img = str_field_or(c, "leftImage", "");
    let right_img = str_field_or(c, "rightImage", "");
    let mut out = String::new();
    out.append("<div class=\"columns-block\" style=\"display: grid; grid-template-columns: 1fr 1fr; gap: 2rem; margin: 2rem 0;\">\n                            <div class=\"left-col\">\n                                ");
    push_column(&mut out, left_img.as_slice(), left.as_str());
    out.append("\n                            </div>\n                            <div class=\"right-col\">\n                                ");
    push_column(&mut out, right_img.as_slice(), right.as_str());
    out.append("\n                            </div>\n                        </div>");
    assert(out@ =~= page_columns_html(opt_val(c)));
    out
}

fn page_block_type_exec(block: &Json) -> (r: Vec<char>)
    ensures
        r@ == page_block_type(block@),
{
    let tv = match block.get("type") {
        Some(t) => Some(t),
        None => block.get("block_type"),
    };
    match tv {
        Some(t) => match t.as_str() {
            Some(s) => chars_of(s),
            None => chars_of("text"),
        },
        None => chars_of("text"),
    }
}

fn page_block_exec(block: &Json) -> (r: String)
    ensures
        r@ == page_block_html(block@),
{
    let bt = page_block_type_exec(block);
    let c = block.get("content");
    assert(opt_val(c) == val_get(block@, "content"@));
    let b = bt.as_slice();
    if chars_eq_str(b, "heading") {
        page_heading_exec(block, c)
    } else if chars_eq_str(b, "paragraph") {
        page_paragraph_exec(c, true)
    } else if chars_eq_str(b, "image") {
        page_image_exec(c)
    } else if chars_eq_str(b, "code") {
        page_code_exec(c)
    } else if chars_eq_str(b, "quote") {
        page_quote_exec(c)
    } else if chars_eq_str(b, "hero") {
        page_hero_exec(c)
    } else if chars_eq_str(b, "video") {
        page_video_exec(c)
    } else if chars_eq_str(b, "columns") {
        page_columns_exec(c)
    } else {
        page_paragraph_exec(c, false)
    }
}

/// Renders the content blocks of a published page or post as HTML, one
/// block per line; texts from the content are escaped where the block type
/// calls for it.
pub fn render_blocks(content: &Json) -> (html: String)
    ensures
        html@ == page_blocks_html(content@),
{
    match content {
        Json::Array(v) => {
            let ghost items = json_vals(v@);
            let ghost parts = items.map_values(|b: JsonVal| page_block_html(b));
            proof { lemma_json_vals(v@); }
            let mut out = String::new();
            for i in 0..v.len()
                invariant
                    items == json_vals(v@),
                    items.len() == v@.len(),
                    parts == items.map_values(|b: JsonVal| page_block_html(b)),
                    forall|k: int| 0 <= k < v@.len() ==> #[trigger] items[k] == v@[k]@,
                    out@ == join(parts.take(i as int), "\n"@),
            {
                let piece = page_block_exec(&v[i]);
                push_joined(&mut out, i == 0, "\n", piece.as_str());
                proof {
                    lemma_join_push(parts.take(i as int), parts[i as int], "\n"@);
                    assert(parts.take(i + 1) =~= parts.take(i as int).push(parts[i as int]));
                }
            }
            assert(parts.take(v.len() as int) =~= parts);
            out
        },
        _ => String::new(),
    }
}

}
