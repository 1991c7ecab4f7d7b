use up::text::{chars_of, find_char, has_suffix, matches_at, str_eq};

#[test]
fn chars_of_keeps_every_character() {
    assert_eq!(chars_of("a-é.z"), vec!['a', '-', 'é', '.', 'z']);
    assert!(chars_of("").is_empty());
}

#[test]
fn matches_at_finds_a_pattern_in_place() {
    let text = chars_of("foo-1.2.3");
    assert!(matches_at(&text, 0, &chars_of("foo")));
    assert!(matches_at(&text, 4, &chars_of("1.2")));
    assert!(matches_at(&text, 9, &chars_of("")));
    assert!(!matches_at(&text, 1, &chars_of("foo")));
    assert!(!matches_at(&text, 7, &chars_of(".33")));
    assert!(!matches_at(&text, 10, &chars_of("")));
    assert!(!matches_at(&text, usize::MAX, &chars_of("3")));
}

#[test]
fn has_suffix_compares_the_end() {
    let text = chars_of("x.tar.gz");
    assert!(has_suffix(&text, &chars_of(".gz")));
    assert!(has_suffix(&text, &chars_of("x.tar.gz")));
    assert!(has_suffix(&text, &chars_of("")));
    assert!(!has_suffix(&text, &chars_of(".tar")));
    assert!(!has_suffix(&text, &chars_of("xx.tar.gz")));
}

#[test]
fn str_eq_compares_characters() {
    assert!(str_eq("exe", "exe"));
    assert!(str_eq("", ""));
    assert!(!str_eq("exe", "exe "));
    assert!(!str_eq("exe", "exf"));
}

#[test]
fn find_char_gives_the_first_position() {
    let text = chars_of("a/b/c");
    assert_eq!(find_char(&text, 0, '/'), Some(1));
    assert_eq!(find_char(&text, 1, '/'), Some(1));
    assert_eq!(find_char(&text, 2, '/'), Some(3));
    assert_eq!(find_char(&text, 4, '/'), None);
    assert_eq!(find_char(&text, 5, '/'), None);
    assert_eq!(find_char(&text, 0, 'x'), None);
}
