use dcr::text::same_text;

#[test]
fn equal_texts_are_the_same() {
    assert!(same_text("", ""));
    assert!(same_text("/dcr/health", "/dcr/health"));
    assert!(same_text("gr\u{fc}\u{df}e \u{1f980}", "gr\u{fc}\u{df}e \u{1f980}"));
}

#[test]
fn different_texts_are_not_the_same() {
    assert!(!same_text("/dcr/health", "/dcr/healtH"));
    assert!(!same_text("/dcr/health", "/dcr/health/"));
    assert!(!same_text("", "/"));
    assert!(!same_text("GET", "get"));
    assert!(!same_text("\u{e9}", "e\u{301}"));
}
