use rust_dsa::sanitize::Sanitize;

#[test]
fn trims_and_underscores() {
    assert_eq!(Sanitize(String::from("  abc def ")), "abc_def");
}

#[test]
fn a_single_letter_is_unchanged() {
    assert_eq!(Sanitize(String::from("a")), "a");
}

#[test]
fn the_empty_text_stays_empty() {
    assert_eq!(Sanitize(String::from("")), "");
}

#[test]
fn all_whitespace_becomes_empty() {
    assert_eq!(Sanitize(String::from(" \t\r\n ")), "");
}

#[test]
fn interior_spaces_each_become_an_underscore() {
    assert_eq!(Sanitize(String::from("a b c")), "a_b_c");
    assert_eq!(Sanitize(String::from("a  b")), "a__b");
}

#[test]
fn unicode_whitespace_is_trimmed() {
    assert_eq!(Sanitize(String::from("\u{2000}x\u{3000}")), "x");
    assert_eq!(Sanitize(String::from("\u{a0}\u{1680}end")), "end");
}

#[test]
fn interior_non_space_whitespace_is_kept() {
    assert_eq!(Sanitize(String::from(" a\tb ")), "a\tb");
}

#[test]
fn sanitizing_twice_changes_nothing_more() {
    for text in ["  abc def ", "a", "", " \u{2028} x  y\tz "] {
        let once = Sanitize(String::from(text));
        let twice = Sanitize(once.clone());
        assert_eq!(twice, once);
    }
}
