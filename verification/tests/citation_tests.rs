use dib_client::citations::extract_citations;

fn names(text: &str) -> Vec<String> {
    extract_citations(text)
}

#[test]
fn two_citations_in_order() {
    let found = names("hello {{ a.png }} world {{b.jpeg}} end");
    assert_eq!(found, vec!["a.png".to_string(), "b.jpeg".to_string()]);
}

#[test]
fn unrecognised_extension_is_ignored() {
    let found = names("{{ x.gif }}{{ y.png }}");
    assert_eq!(found, vec!["y.png".to_string()]);
}

#[test]
fn body_without_citations() {
    assert!(names("plain text, no citations at all").is_empty());
    assert!(names("").is_empty());
}

#[test]
fn duplicates_are_preserved() {
    let found = names("{{a.png}}{{a.png}}");
    assert_eq!(found, vec!["a.png".to_string(), "a.png".to_string()]);
}

#[test]
fn whitespace_inside_braces_is_tolerated() {
    let found = names("{{   pic.jpg\t}}");
    assert_eq!(found, vec!["pic.jpg".to_string()]);
}

#[test]
fn citations_interleaved_with_whitespace_round_trip() {
    let found = names("  {{a.png}} \t {{b.jpg}}\n{{a.png}}  ");
    assert_eq!(
        found,
        vec!["a.png".to_string(), "b.jpg".to_string(), "a.png".to_string()]
    );
}

#[test]
fn whitespace_inside_name_rejects() {
    assert!(names("{{ a b.png }}").is_empty());
}

#[test]
fn unicode_whitespace_is_whitespace() {
    assert_eq!(names("{{\u{a0}a.png\u{2003}}}"), vec!["a.png".to_string()]);
    assert_eq!(names("\u{2028}{{ b.jpg }}\u{3000}"), vec!["b.jpg".to_string()]);
    assert!(names("{{ a\u{a0}b.png }}").is_empty());
}

#[test]
fn empty_name_rejects() {
    assert!(names("{{.png}}").is_empty());
    assert!(names("{{ .jpeg }}").is_empty());
}

#[test]
fn extra_opening_brace_still_matches() {
    assert_eq!(names("{{{logo.png}}"), vec!["logo.png".to_string()]);
    assert_eq!(names("{{ {{ a.png }}"), vec!["a.png".to_string()]);
}

#[test]
fn name_may_contain_dots() {
    assert_eq!(names("{{ a..png }}"), vec!["a..png".to_string()]);
    assert_eq!(names("{{ v1.2.jpeg }}"), vec!["v1.2.jpeg".to_string()]);
}

#[test]
fn extension_must_end_the_name() {
    assert!(names("{{ x.pngx }}").is_empty());
    assert!(names("{{ x.jp }}").is_empty());
}

#[test]
fn jpeg_and_jpg_both_match() {
    assert_eq!(
        names("{{a.jpg}} {{b.jpeg}} {{c.png}}"),
        vec!["a.jpg".to_string(), "b.jpeg".to_string(), "c.png".to_string()]
    );
}

#[test]
fn unicode_names_are_captured() {
    assert_eq!(names("héllo {{ ünïcode.png }}"), vec!["ünïcode.png".to_string()]);
}

#[test]
fn unclosed_citation_rejects() {
    assert!(names("{{ a.png ").is_empty());
    assert!(names("{{ a.png }").is_empty());
}
