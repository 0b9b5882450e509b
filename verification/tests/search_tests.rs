use tutorlol::search::matches_fuzzy;

#[test]
fn empty_query_matches_every_text() {
    assert!(matches_fuzzy("", ""));
    assert!(matches_fuzzy("", "Neeko"));
}

#[test]
fn nothing_but_the_empty_query_matches_the_empty_text() {
    assert!(!matches_fuzzy("a", ""));
    assert!(!matches_fuzzy("Neeko", ""));
}

#[test]
fn characters_in_order_match() {
    assert!(matches_fuzzy("Neeko", "Neeko"));
    assert!(matches_fuzzy("Nko", "Neeko"));
    assert!(matches_fuzzy("eo", "Neeko"));
    assert!(matches_fuzzy("o", "Neeko"));
    assert!(matches_fuzzy("N", "Neeko"));
    assert!(matches_fuzzy("Bc", "Blade of the Ruined King: cost"));
    assert!(matches_fuzzy("aaa", "banana"));
}

#[test]
fn characters_out_of_order_do_not_match() {
    assert!(!matches_fuzzy("oN", "Neeko"));
    assert!(!matches_fuzzy("keN", "Neeko"));
    assert!(!matches_fuzzy("aaaa", "banana"));
    assert!(!matches_fuzzy("nab", "banana"));
}

#[test]
fn missing_characters_do_not_match() {
    assert!(!matches_fuzzy("Neekos", "Neeko"));
    assert!(!matches_fuzzy("x", "Neeko"));
    assert!(!matches_fuzzy("Neeeko", "Neeko"));
}

#[test]
fn matching_tells_upper_from_lower_case() {
    assert!(!matches_fuzzy("n", "Neeko"));
    assert!(matches_fuzzy("K", "Kayn"));
    assert!(!matches_fuzzy("k", "Kayn"));
}

#[test]
fn matching_goes_by_characters_not_bytes() {
    assert!(matches_fuzzy("\u{e9}", "Kaf\u{e9}"));
    assert!(matches_fuzzy("K\u{e9}", "Kaf\u{e9}"));
    assert!(!matches_fuzzy("\u{e9}K", "Kaf\u{e9}"));
    assert!(!matches_fuzzy("e", "Kaf\u{e9}"));
}
