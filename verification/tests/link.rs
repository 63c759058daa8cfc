use ytmp3::link::link_is_valid;

#[test]
fn accepts_both_supported_prefixes() {
    assert!(link_is_valid("https://www.youtube.com/watch?v=abc123"));
    assert!(link_is_valid("https://youtube.com/watch?v=abc123"));
}

#[test]
fn a_bare_prefix_is_still_accepted() {
    assert!(link_is_valid("https://www.youtube.com/watch?v="));
    assert!(link_is_valid("https://youtube.com/watch?v="));
}

#[test]
fn rejects_empty_text() {
    assert!(!link_is_valid(""));
}

#[test]
fn rejects_other_schemes_and_hosts() {
    assert!(!link_is_valid("ftp://example.com/x"));
    assert!(!link_is_valid("http://www.youtube.com/watch?v=abc"));
    assert!(!link_is_valid("https://youtu.be/abc123"));
    assert!(!link_is_valid("https://www.youtube.com/playlist?list=xyz"));
    assert!(!link_is_valid("www.youtube.com/watch?v=abc"));
}

#[test]
fn rejects_truncated_prefix() {
    assert!(!link_is_valid("https://www.youtube.com/watch?v"));
    assert!(!link_is_valid("https://youtube.com"));
}
