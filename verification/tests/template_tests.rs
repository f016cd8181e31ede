use mdbook_open_on_gh::template::parse_footer_text;

fn parsed(text: &str) -> Option<(String, String, String)> {
    parse_footer_text(text)
}

fn triple(a: &str, b: &str, c: &str) -> Option<(String, String, String)> {
    Some((a.to_string(), b.to_string(), c.to_string()))
}

#[test]
fn parses_footer_text() {
    assert_eq!(triple("pre ", "link", " post"), parsed("pre [link] post"));
    assert_eq!(triple("", "link", ""), parsed("[link]"));
    assert_eq!(triple("pre ", "link", ""), parsed("pre [link]"));
    assert_eq!(triple("", "link", " post"), parsed("[link] post"));
}

#[test]
fn missing() {
    assert_eq!(None, parsed("none"));
    assert_eq!(None, parsed("["));
    assert_eq!(None, parsed("[]"));
}

#[test]
fn unterminated_bracket_fails() {
    assert_eq!(None, parsed("pre [link"));
    assert_eq!(None, parsed("a[b"));
}

#[test]
fn empty_label_fails_with_suffix() {
    assert_eq!(None, parsed("pre [] post"));
}

#[test]
fn only_first_bracket_pair_counts() {
    assert_eq!(triple("a ", "b", " [c] d"), parsed("a [b] [c] d"));
}

#[test]
fn default_template_parses() {
    assert_eq!(
        triple("Found a bug? ", "Edit this page on GitHub.", ""),
        parsed("Found a bug? [Edit this page on GitHub.]")
    );
}
