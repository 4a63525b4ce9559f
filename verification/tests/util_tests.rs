use blog_platform::util::{generate_slug, is_valid_url, validate_file_content};

#[test]
fn slug_of_a_title() {
    assert_eq!(generate_slug("Hello World!"), "hello-world");
}

#[test]
fn slug_trims_dashes_but_keeps_inner_runs() {
    assert_eq!(generate_slug("  --Rust & Verus--  "), "rust---verus");
}

#[test]
fn slug_of_only_symbols_is_empty() {
    assert_eq!(generate_slug("!!! ???"), "");
}

#[test]
fn slug_keeps_unicode_letters() {
    assert_eq!(generate_slug("Café Müller"), "café-müller");
}

#[test]
fn slug_never_starts_or_ends_with_dash() {
    for t in ["-a-", "---", "a b c", " x ", "ÄÖ-ü"] {
        let s = generate_slug(t);
        assert!(!s.starts_with('-') && !s.ends_with('-'), "{}", s);
        assert!(s.chars().all(|c| c == '-' || c.is_alphanumeric()));
    }
}

#[test]
fn blank_urls_are_allowed() {
    assert!(is_valid_url(""));
    assert!(is_valid_url("   "));
}

#[test]
fn dangerous_schemes_are_refused_in_any_case() {
    assert!(!is_valid_url("javascript:alert(1)"));
    assert!(!is_valid_url("  JavaScript:alert(1)"));
    assert!(!is_valid_url("data:text/html;base64,xx"));
    assert!(!is_valid_url("VBScript:x"));
    assert!(!is_valid_url("file:///etc/passwd"));
}

#[test]
fn http_and_relative_urls_are_allowed() {
    assert!(is_valid_url("https://example.com/a.png"));
    assert!(is_valid_url("HTTP://EXAMPLE.COM"));
    assert!(is_valid_url("/media/x.png"));
    assert!(is_valid_url("images/x.png"));
}

#[test]
fn other_schemes_and_javascript_prefix_are_refused() {
    assert!(!is_valid_url("ftp://example.com"));
    assert!(!is_valid_url("javascriptfoo"));
}

#[test]
fn png_signature_checked() {
    let good = [0x89u8, 0x50, 0x4E, 0x47, 0x0D, 0x0A, 0x1A, 0x0A, 1, 2];
    assert_eq!(validate_file_content(&good, "a.png"), Ok(()));
    assert_eq!(validate_file_content(&good[..7], "a.PNG"), Err("Invalid PNG file".to_string()));
    assert_eq!(validate_file_content(b"hello", "a.png"), Err("Invalid PNG file".to_string()));
}

#[test]
fn jpeg_signature_checked() {
    assert_eq!(validate_file_content(&[0xFF, 0xD8, 0xFF, 0xE0], "x.JPG"), Ok(()));
    assert_eq!(validate_file_content(&[0xFF, 0xD8, 0xFF], "x.jpeg"), Ok(()));
    assert_eq!(validate_file_content(&[0xFF, 0xD8], "x.jpeg"), Err("Invalid JPEG file".to_string()));
}

#[test]
fn gif_signatures_checked() {
    assert_eq!(validate_file_content(b"GIF87a....", "x.gif"), Ok(()));
    assert_eq!(validate_file_content(b"GIF89a", "x.gif"), Ok(()));
    assert_eq!(validate_file_content(b"GIF90a", "x.gif"), Err("Invalid GIF file".to_string()));
}

#[test]
fn svg_must_start_with_svg_tag() {
    assert_eq!(validate_file_content(b"  \n<svg xmlns=\"x\"></svg>", "x.svg"), Ok(()));
    assert_eq!(validate_file_content(b"<html></html>", "x.svg"), Err("Invalid SVG file".to_string()));
}

#[test]
fn webp_and_pdf_checked() {
    assert_eq!(validate_file_content(b"RIFF\0\0\0\0WEBPVP8 ", "x.webp"), Ok(()));
    assert_eq!(validate_file_content(b"RIFF\0\0\0\0WAVE", "x.webp"), Err("Invalid WebP file".to_string()));
    assert_eq!(validate_file_content(b"%PDF-1.7", "x.pdf"), Ok(()));
    assert_eq!(validate_file_content(b"%PD", "x.pdf"), Err("Invalid PDF file".to_string()));
}

#[test]
fn unchecked_types_pass() {
    assert_eq!(validate_file_content(b"anything", "notes.txt"), Ok(()));
    assert_eq!(validate_file_content(b"", "no_extension"), Ok(()));
}
