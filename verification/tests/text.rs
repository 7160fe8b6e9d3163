use apsak_miner::text::{chars_of, contains_chars, find_char, matches_at, same_text};

#[test]
fn the_characters_of_a_string() {
    assert_eq!(chars_of(""), Vec::<char>::new());
    assert_eq!(chars_of("a:b"), vec!['a', ':', 'b']);
    assert_eq!(chars_of("h\u{00e9}!"), vec!['h', '\u{00e9}', '!']);
}

#[test]
fn the_first_of_several_is_found() {
    let s = chars_of("a:b:c");
    assert_eq!(find_char(&s, ':'), Some(1));
    assert_eq!(find_char(&s, 'a'), Some(0));
    assert_eq!(find_char(&s, 'c'), Some(4));
    assert_eq!(find_char(&s, 'x'), None);
    assert_eq!(find_char(&[], ':'), None);
}

#[test]
fn positions_count_characters() {
    let s = chars_of("\u{00e9}\u{4e2d}:x");
    assert_eq!(find_char(&s, ':'), Some(2));
}

#[test]
fn a_pattern_at_a_position() {
    let s = chars_of("grpc://host");
    let pat = chars_of("://");
    assert!(matches_at(&s, &pat, 4));
    assert!(!matches_at(&s, &pat, 3));
    assert!(!matches_at(&s, &pat, 5));
    assert!(!matches_at(&s, &pat, 9));
    assert!(!matches_at(&s, &pat, 11));
    assert!(!matches_at(&s, &pat, 12));
    assert!(!matches_at(&s, &pat, usize::MAX));
    assert!(matches_at(&s, &[], 0));
    assert!(matches_at(&s, &[], 11));
    assert!(!matches_at(&s, &[], 12));
}

#[test]
fn a_pattern_somewhere() {
    let pat = chars_of("://");
    assert!(contains_chars(&chars_of("grpc://host"), &pat));
    assert!(contains_chars(&chars_of("://"), &pat));
    assert!(contains_chars(&chars_of("a://"), &pat));
    assert!(contains_chars(&chars_of("::///"), &pat));
    assert!(!contains_chars(&chars_of(""), &pat));
    assert!(!contains_chars(&chars_of(":/"), &pat));
    assert!(!contains_chars(&chars_of("host:8080"), &pat));
    assert!(!contains_chars(&chars_of("a:/b/"), &pat));
    assert!(contains_chars(&chars_of("abc"), &[]));
    assert!(contains_chars(&[], &[]));
}

#[test]
fn strings_with_the_same_characters() {
    assert!(same_text("", ""));
    assert!(same_text("apsak", "apsak"));
    assert!(!same_text("apsak", "apsa"));
    assert!(!same_text("apsa", "apsak"));
    assert!(!same_text("apsak", "apsaK"));
    assert!(!same_text("", "a"));
    assert!(same_text("\u{00e9}", "\u{00e9}"));
}
