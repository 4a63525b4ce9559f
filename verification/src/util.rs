//! Validation helpers: URL-friendly slugs, URL scheme checks and file
//! signatures of uploads.
use vstd::prelude::*;
use crate::text::{
    char_is_alphanumeric, chars_of, contains, contains_str, ends_with_str, has_prefix, has_suffix,
    is_alphanumeric, lowercase, starts_with_str, string_of, strip_leading, strip_trailing, to_lowercase, trim,
    trim_char, trim_exec, trim_matches_char, trim_start, trim_start_exec,
};

verus! {

// ---------------------------------------------------------------------------
// Slugs
// ---------------------------------------------------------------------------

/// A character of a slug: alphanumeric characters stay, others become `-`.
pub open spec fn slug_char(c: char) -> char {
    if char_is_alphanumeric(c) {
        c
    } else {
        '-'
    }
}

/// The slug of a title: its lowercase form with every non-alphanumeric
/// character replaced by `-`, without leading or trailing `-`.
pub open spec fn slug_of(title: Seq<char>) -> Seq<char> {
    trim_char(lowercase(title).map_values(|c: char| slug_char(c)), '-')
}

/// Turns a title into a URL slug.
pub fn generate_slug(title: &str) -> (slug: String)
    ensures
        slug@ == slug_of(title@),
{
    let lower = to_lowercase(title);
    let lc = chars_of(lower.as_str());
    let mut mapped: Vec<char> = Vec::new();
    for i in 0..lc.len()
        invariant
            lc@ == lowercase(title@),
            mapped@ == lc@.take(i as int).map_values(|c: char| slug_char(c)),
    {
        let c = lc[i];
        let m = if is_alphanumeric(c) { c } else { '-' };
        mapped.push(m);
        assert(lc@.take(i + 1).map_values(|c: char| slug_char(c)) =~= lc@.take(i as int).map_values(
            |c: char| slug_char(c),
        ).push(slug_char(c)));
    }
    assert(lc@.take(lc.len() as int) =~= lc@);
    let trimmed = trim_matches_char(mapped.as_slice(), '-');
    string_of(trimmed.as_slice())
}

/// Stripping leading `c` leaves a suffix of `s` that does not start with `c`.
proof fn lemma_strip_leading(s: Seq<char>, c: char)
    ensures
        strip_leading(s, c).len() <= s.len(),
        strip_leading(s, c) == s.skip(s.len() - strip_leading(s, c).len()),
        strip_leading(s, c).len() > 0 ==> strip_leading(s, c)[0] != c,
        forall|i: int| 0 <= i < s.len() - strip_leading(s, c).len() ==> #[trigger] s[i] == c,
    decreases s.len(),
{
    if s.len() > 0 && s[0] == c {
        lemma_strip_leading(s.skip(1), c);
        assert forall|i: int| 0 <= i < s.len() - strip_leading(s, c).len() implies #[trigger] s[i] == c by {
            if i > 0 {
                assert(s[i] == s.skip(1)[i - 1]);
            }
        }
        assert(s.skip(1).skip(s.skip(1).len() - strip_leading(s.skip(1), c).len()) =~= s.skip(
            s.len() - strip_leading(s, c).len(),
        ));
    } else {
        assert(s.skip(0) =~= s);
    }
}

/// Stripping trailing `c` leaves a prefix of `s` that does not end with `c`.
proof fn lemma_strip_trailing(s: Seq<char>, c: char)
    ensures
        strip_trailing(s, c).len() <= s.len(),
        strip_trailing(s, c) == s.take(strip_trailing(s, c).len() as int),
        strip_trailing(s, c).len() > 0 ==> strip_trailing(s, c).last() != c,
        forall|i: int| strip_trailing(s, c).len() <= i < s.len() ==> #[trigger] s[i] == c,
    decreases s.len(),
{
    if s.len() > 0 && s.last() == c {
        lemma_strip_trailing(s.drop_last(), c);
        assert forall|i: int| strip_trailing(s, c).len() <= i < s.len() implies #[trigger] s[i] == c by {
            if i < s.len() - 1 {
                assert(s[i] == s.drop_last()[i]);
            }
        }
        assert(s.drop_last().take(strip_trailing(s, c).len() as int) =~= s.take(strip_trailing(s, c).len() as int));
    } else {
        assert(s.take(s.len() as int) =~= s);
    }
}

/// A slug holds only `-` and alphanumeric characters, and neither starts
/// nor ends with `-`.
pub proof fn lemma_slug_shape(title: Seq<char>)
    ensures
        forall|i: int| 0 <= i < slug_of(title).len() ==> #[trigger] slug_of(title)[i] == '-' || char_is_alphanumeric(
            slug_of(title)[i],
        ),
        slug_of(title).len() > 0 ==> slug_of(title)[0] != '-' && slug_of(title).last() != '-',
{
    let m = lowercase(title).map_values(|c: char| slug_char(c));
    let t = strip_leading(m, '-');
    lemma_strip_leading(m, '-');
    lemma_strip_trailing(t, '-');
    let r = slug_of(title);
    assert(r == strip_trailing(t, '-'));
    assert forall|i: int| 0 <= i < r.len() implies #[trigger] r[i] == '-' || char_is_alphanumeric(r[i]) by {
        assert(r[i] == t[i]);
        assert(t[i] == m[i + (m.len() - t.len())]);
    }
    if r.len() > 0 {
        assert(r[0] == t[0]);
    }
}

/// The slug of a title sits at offset `k` of its lowercase form: each of
/// its characters is the lowercase character at the same place, kept when
/// alphanumeric and `-` otherwise, and every place outside the slug would
/// have been a `-`.
pub open spec fn slug_kept_at(title: Seq<char>, k: int) -> bool {
    let lower = lowercase(title);
    let slug = slug_of(title);
    &&& 0 <= k
    &&& k + slug.len() <= lower.len()
    &&& forall|j: int|
        0 <= j < slug.len() ==> #[trigger] slug[j] == (if char_is_alphanumeric(lower[j + k]) {
            lower[j + k]
        } else {
            '-'
        })
    &&& forall|i: int|
        0 <= i < lower.len() && !(k <= i < k + slug.len()) ==> (if char_is_alphanumeric(#[trigger] lower[i]) {
            lower[i]
        } else {
            '-'
        }) == '-'
}

/// A slug keeps every alphanumeric character of the lowercase title, digits
/// included, in place; only other characters become `-`, and only dashes
/// are trimmed at the ends.
pub proof fn lemma_slug_keeps_characters(title: Seq<char>)
    ensures
        exists|k: int| #[trigger] slug_kept_at(title, k),
{
    let lower = lowercase(title);
    let m = lower.map_values(|c: char| slug_char(c));
    let t = strip_leading(m, '-');
    lemma_strip_leading(m, '-');
    lemma_strip_trailing(t, '-');
    let r = slug_of(title);
    let k = m.len() - t.len();
    assert(r == strip_trailing(t, '-'));
    assert forall|j: int| 0 <= j < r.len() implies #[trigger] r[j] == (if char_is_alphanumeric(lower[j + k]) {
        lower[j + k]
    } else {
        '-'
    }) by {
        assert(r[j] == t[j]);
        assert(t[j] == m[j + k]);
    }
    assert forall|i: int| 0 <= i < lower.len() && !(k <= i < k + r.len()) implies (if char_is_alphanumeric(
        #[trigger] lower[i],
    ) {
        lower[i]
    } else {
        '-'
    }) == '-' by {
        assert(m[i] == slug_char(lower[i]));
        if i >= k + r.len() {
            assert(t[i - k] == m[i]);
        }
    }
    assert(slug_kept_at(title, k));
}

// ---------------------------------------------------------------------------
// URLs
// ---------------------------------------------------------------------------

/// A URL that starts (ignoring case) with a scheme that runs code or reads
/// local data.
pub open spec fn has_dangerous_scheme(lower: Seq<char>) -> bool {
    has_prefix(lower, "javascript:"@) || has_prefix(lower, "data:"@) || has_prefix(lower, "vbscript:"@)
        || has_prefix(lower, "file:"@)
}

/// When a URL is acceptable for a link or an image: after trimming it is
/// empty (the field is optional), or it uses no dangerous scheme and is
/// either an http(s) URL or a relative one (no `://`, not starting with
/// `javascript`).
pub open spec fn url_is_valid(url: Seq<char>) -> bool {
    let t = trim(url);
    let lower = lowercase(t);
    if t.len() == 0 {
        true
    } else if has_dangerous_scheme(lower) {
        false
    } else {
        has_prefix(lower, "http://"@) || has_prefix(lower, "https://"@) || (!contains(t, "://"@)
            && !has_prefix(t, "javascript"@))
    }
}

/// Whether a URL given by a user may be stored and rendered.
pub fn is_valid_url(url: &str) -> (ok: bool)
    ensures
        ok == url_is_valid(url@),
{
    let uc = chars_of(url);
    let t = trim_exec(uc.as_slice());
    if t.len() == 0 {
        return true;
    }
    let ts = string_of(t.as_slice());
    let lower_s = to_lowercase(ts.as_str());
    let lower = chars_of(lower_s.as_str());
    if starts_with_str(lower.as_slice(), "javascript:") || starts_with_str(lower.as_slice(), "data:")
        || starts_with_str(lower.as_slice(), "vbscript:") || starts_with_str(lower.as_slice(), "file:")
    {
        return false;
    }
    if starts_with_str(lower.as_slice(), "http://") || starts_with_str(lower.as_slice(), "https://")
        || (!contains_str(t.as_slice(), "://") && !starts_with_str(t.as_slice(), "javascript"))
    {
        true
    } else {
        false
    }
}

/// A blank URL is accepted: the field is optional.
pub proof fn lemma_blank_url_allowed(url: Seq<char>)
    requires
        trim(url).len() == 0,
    ensures
        url_is_valid(url),
{
}

/// A URL that, once trimmed, is not blank and starts (in any case) with
/// `javascript:`, `data:`, `vbscript:` or `file:` is refused.
pub proof fn lemma_dangerous_url_refused(url: Seq<char>)
    requires
        trim(url).len() > 0,
        has_dangerous_scheme(lowercase(trim(url))),
    ensures
        !url_is_valid(url),
{
}

// ---------------------------------------------------------------------------
// File signatures
// ---------------------------------------------------------------------------

/// The PNG signature.
pub open spec fn png_signature() -> Seq<u8> {
    seq![0x89u8, 0x50u8, 0x4Eu8, 0x47u8, 0x0Du8, 0x0Au8, 0x1Au8, 0x0Au8]
}

/// The JPEG start-of-image marker.
pub open spec fn jpeg_signature() -> Seq<u8> {
    seq![0xFFu8, 0xD8u8, 0xFFu8]
}

/// The GIF87a signature.
pub open spec fn gif87_signature() -> Seq<u8> {
    seq![0x47u8, 0x49u8, 0x46u8, 0x38u8, 0x37u8, 0x61u8]
}

/// The GIF89a signature.
pub open spec fn gif89_signature() -> Seq<u8> {
    seq![0x47u8, 0x49u8, 0x46u8, 0x38u8, 0x39u8, 0x61u8]
}

/// `RIFF`, the container tag of WebP files.
pub open spec fn riff_tag() -> Seq<u8> {
    seq![0x52u8, 0x49u8, 0x46u8, 0x46u8]
}

/// `WEBP`, the form type of WebP files.
pub open spec fn webp_tag() -> Seq<u8> {
    seq![0x57u8, 0x45u8, 0x42u8, 0x50u8]
}

/// `%PDF-`, the header of PDF files.
pub open spec fn pdf_signature() -> Seq<u8> {
    seq![0x25u8, 0x50u8, 0x44u8, 0x46u8, 0x2Du8]
}

/// `magic` stands in `content` at index `at`.
pub open spec fn bytes_at(content: Seq<u8>, at: int, magic: Seq<u8>) -> bool {
    at + magic.len() <= content.len() && content.subrange(at, at + magic.len()) == magic
}

/// The text that `String::from_utf8_lossy` makes of some bytes.
pub uninterp spec fn utf8_lossy(bytes: Seq<u8>) -> Seq<char>;

/// Calls `String::from_utf8_lossy` and takes the owned text; the result is
/// the named decoding of `bytes` (invalid sequences become U+FFFD).
#[verifier::external_body]
pub(crate) fn from_utf8_lossy(bytes: &[u8]) -> (s: String)
    ensures
        s@ == utf8_lossy(bytes@),
{
    String::from_utf8_lossy(bytes).into_owned()
}

/// Why the content of an upload named `filename` does not match the file
/// type that its extension (in any case) announces, or `None` when it
/// matches or the type is not one that is checked.
pub open spec fn file_content_error(content: Seq<u8>, filename: Seq<char>) -> Option<Seq<char>> {
    let lower = lowercase(filename);
    if has_suffix(lower, ".png"@) {
        if !bytes_at(content, 0, png_signature()) { Some("Invalid PNG file"@) } else { None }
    } else if has_suffix(lower, ".jpg"@) || has_suffix(lower, ".jpeg"@) {
        if !bytes_at(content, 0, jpeg_signature()) { Some("Invalid JPEG file"@) } else { None }
    } else if has_suffix(lower, ".gif"@) {
        if !bytes_at(content, 0, gif87_signature()) && !bytes_at(content, 0, gif89_signature()) {
            Some("Invalid GIF file"@)
        } else {
            None
        }
    } else if has_suffix(lower, ".svg"@) {
        if !has_prefix(trim_start(utf8_lossy(content)), "<svg"@) { Some("Invalid SVG file"@) } else { None }
    } else if has_suffix(lower, ".webp"@) {
        if content.len() < 12 || !bytes_at(content, 0, riff_tag()) || !bytes_at(content, 8, webp_tag()) {
            Some("Invalid WebP file"@)
        } else {
            None
        }
    } else if has_suffix(lower, ".pdf"@) {
        if !bytes_at(content, 0, pdf_signature()) { Some("Invalid PDF file"@) } else { None }
    } else {
        None
    }
}

/// Whether `magic` stands in `content` at index `at`.
fn bytes_at_exec(content: &[u8], at: usize, magic: &[u8]) -> (r: bool)
    ensures
        r == bytes_at(content@, at as int, magic@),
{
    if at > content.len() || magic.len() > content.len() - at {
        return false;
    }
    for j in 0..magic.len()
        invariant
            at + magic.len() <= content.len(),
            forall|k: int| 0 <= k < j ==> content@[at + k] == magic@[k],
    {
        if content[at + j] != magic[j] {
            assert(content@.subrange(at as int, at + magic.len())[j as int] != magic@[j as int]);
            return false;
        }
    }
    assert(content@.subrange(at as int, at + magic.len()) =~= magic@);
    true
}

/// Checks that the bytes of an upload carry the signature of the file type
/// that its name announces (PNG, JPEG, GIF, SVG, WebP, PDF); other types
/// pass unchecked.
pub fn validate_file_content(content: &[u8], filename: &str) -> (r: Result<(), String>)
    ensures
        r is Ok <==> file_content_error(content@, filename@) is None,
        r matches Err(e) ==> file_content_error(content@, filename@) == Some(e@),
{
    let lower_s = to_lowercase(filename);
    let lower = chars_of(lower_s.as_str());
    let png: [u8; 8] = [0x89u8, 0x50u8, 0x4Eu8, 0x47u8, 0x0Du8, 0x0Au8, 0x1Au8, 0x0Au8];
    let jpeg: [u8; 3] = [0xFFu8, 0xD8u8, 0xFFu8];
    let gif87: [u8; 6] = [0x47u8, 0x49u8, 0x46u8, 0x38u8, 0x37u8, 0x61u8];
    let gif89: [u8; 6] = [0x47u8, 0x49u8, 0x46u8, 0x38u8, 0x39u8, 0x61u8];
    let riff: [u8; 4] = [0x52u8, 0x49u8, 0x46u8, 0x46u8];
    let webp: [u8; 4] = [0x57u8, 0x45u8, 0x42u8, 0x50u8];
    let pdf: [u8; 5] = [0x25u8, 0x50u8, 0x44u8, 0x46u8, 0x2Du8];
    if ends_with_str(lower.as_slice(), ".png") {
        if !bytes_at_exec(content, 0, &png) {
            return Err(String::from_str("Invalid PNG file"));
        }
    } else if ends_with_str(lower.as_slice(), ".jpg") || ends_with_str(lower.as_slice(), ".jpeg") {
        if !bytes_at_exec(content, 0, &jpeg) {
            return Err(String::from_str("Invalid JPEG file"));
        }
    } else if ends_with_str(lower.as_slice(), ".gif") {
        if !bytes_at_exec(content, 0, &gif87) && !bytes_at_exec(content, 0, &gif89) {
            return Err(String::from_str("Invalid GIF file"));
        }
    } else if ends_with_str(lower.as_slice(), ".svg") {
        let text = from_utf8_lossy(content);
        let tc = chars_of(text.as_str());
        let ts = trim_start_exec(tc.as_slice());
        if !starts_with_str(ts.as_slice(), "<svg") {
            return Err(String::from_str("Invalid SVG file"));
        }
    } else if ends_with_str(lower.as_slice(), ".webp") {
        if content.len() < 12 || !bytes_at_exec(content, 0, &riff) || !bytes_at_exec(content, 8, &webp) {
            return Err(String::from_str("Invalid WebP file"));
        }
    } else if ends_with_str(lower.as_slice(), ".pdf") {
        if !bytes_at_exec(content, 0, &pdf) {
            return Err(String::from_str("Invalid PDF file"));
        }
    }
    Ok(())
}

/// A name cannot end with two suffixes that differ at the `k`-th character
/// from the end.
proof fn lemma_suffix_clash(l: Seq<char>, a: Seq<char>, b: Seq<char>, k: int)
    requires
        1 <= k <= a.len(),
        k <= b.len(),
        a[a.len() - k] != b[b.len() - k],
    ensures
        !(has_suffix(l, a) && has_suffix(l, b)),
{
    if has_suffix(l, a) && has_suffix(l, b) {
        assert(l.skip(l.len() - a.len())[a.len() - k] == l[l.len() - k]);
        assert(l.skip(l.len() - b.len())[b.len() - k] == l[l.len() - k]);
    }
}

/// Each checked type is told by its extension alone, whatever the order
/// of the checks: an upload whose lowercase name ends in one of them passes
/// exactly when its content carries that type's signature, and is refused
/// with that type's message otherwise.
pub proof fn lemma_file_checks(content: Seq<u8>, filename: Seq<char>)
    ensures
        has_suffix(lowercase(filename), ".png"@) ==> file_content_error(content, filename) == (if bytes_at(
            content,
            0,
            png_signature(),
        ) {
            None
        } else {
            Some("Invalid PNG file"@)
        }),
        has_suffix(lowercase(filename), ".jpg"@) || has_suffix(lowercase(filename), ".jpeg"@) ==> file_content_error(
            content,
            filename,
        ) == (if bytes_at(content, 0, jpeg_signature()) {
            None
        } else {
            Some("Invalid JPEG file"@)
        }),
        has_suffix(lowercase(filename), ".gif"@) ==> file_content_error(content, filename) == (if bytes_at(
            content,
            0,
            gif87_signature(),
        ) || bytes_at(content, 0, gif89_signature()) {
            None
        } else {
            Some("Invalid GIF file"@)
        }),
        has_suffix(lowercase(filename), ".svg"@) ==> file_content_error(content, filename) == (if has_prefix(
            trim_start(utf8_lossy(content)),
            "<svg"@,
        ) {
            None
        } else {
            Some("Invalid SVG file"@)
        }),
        has_suffix(lowercase(filename), ".webp"@) ==> file_content_error(content, filename) == (if content.len() >= 12
            && bytes_at(content, 0, riff_tag()) && bytes_at(content, 8, webp_tag()) {
            None
        } else {
            Some("Invalid WebP file"@)
        }),
        has_suffix(lowercase(filename), ".pdf"@) ==> file_content_error(content, filename) == (if bytes_at(
            content,
            0,
            pdf_signature(),
        ) {
            None
        } else {
            Some("Invalid PDF file"@)
        }),
{
    reveal_strlit(".png");
    reveal_strlit(".jpg");
    reveal_strlit(".jpeg");
    reveal_strlit(".gif");
    reveal_strlit(".svg");
    reveal_strlit(".webp");
    reveal_strlit(".pdf");
    let l = lowercase(filename);
    lemma_suffix_clash(l, ".jpg"@, ".png"@, 3);
    lemma_suffix_clash(l, ".jpeg"@, ".png"@, 4);
    lemma_suffix_clash(l, ".gif"@, ".png"@, 3);
    lemma_suffix_clash(l, ".gif"@, ".jpg"@, 3);
    lemma_suffix_clash(l, ".gif"@, ".jpeg"@, 1);
    lemma_suffix_clash(l, ".svg"@, ".png"@, 3);
    lemma_suffix_clash(l, ".svg"@, ".jpg"@, 3);
    lemma_suffix_clash(l, ".svg"@, ".jpeg"@, 4);
    lemma_suffix_clash(l, ".svg"@, ".gif"@, 3);
    lemma_suffix_clash(l, ".webp"@, ".png"@, 3);
    lemma_suffix_clash(l, ".webp"@, ".jpg"@, 3);
    lemma_suffix_clash(l, ".webp"@, ".jpeg"@, 4);
    lemma_suffix_clash(l, ".webp"@, ".gif"@, 3);
    lemma_suffix_clash(l, ".webp"@, ".svg"@, 3);
    lemma_suffix_clash(l, ".pdf"@, ".png"@, 2);
    lemma_suffix_clash(l, ".pdf"@, ".jpg"@, 3);
    lemma_suffix_clash(l, ".pdf"@, ".jpeg"@, 4);
    lemma_suffix_clash(l, ".pdf"@, ".gif"@, 3);
    lemma_suffix_clash(l, ".pdf"@, ".svg"@, 3);
    lemma_suffix_clash(l, ".pdf"@, ".webp"@, 3);
}

/// A file whose name announces none of the checked types passes whatever
/// its content.
pub proof fn lemma_unchecked_type_passes(content: Seq<u8>, filename: Seq<char>)
    requires
        !has_suffix(lowercase(filename), ".png"@),
        !has_suffix(lowercase(filename), ".jpg"@),
        !has_suffix(lowercase(filename), ".jpeg"@),
        !has_suffix(lowercase(filename), ".gif"@),
        !has_suffix(lowercase(filename), ".svg"@),
        !has_suffix(lowercase(filename), ".webp"@),
        !has_suffix(lowercase(filename), ".pdf"@),
    ensures
        file_content_error(content, filename) is None,
{
}

}
