use openai_client::text::trim;

#[test]
fn trims_surrounding_whitespace() {
    assert_eq!(trim("  hello world  \n"), "hello world");
}

#[test]
fn preserves_case_and_interior_whitespace() {
    assert_eq!(trim("\t Hello  World \r\n"), "Hello  World");
}

#[test]
fn already_trimmed_text_is_unchanged() {
    assert_eq!(trim("hello"), "hello");
}

#[test]
fn all_whitespace_trims_to_empty() {
    assert_eq!(trim(" \t\r\n "), "");
    assert_eq!(trim(""), "");
}

#[test]
fn unicode_whitespace_is_trimmed() {
    assert_eq!(trim("\u{3000}x\u{00A0}"), "x");
    assert_eq!(trim("\u{2003}line\u{2028}"), "line");
}

#[test]
fn matches_std_trim_on_samples() {
    for s in ["  a b  ", "\nword\t", "\u{85}mid dle\u{205F}", "no-space", " \u{200A}"] {
        assert_eq!(trim(s), s.trim());
    }
}
