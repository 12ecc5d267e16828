use stock_tui::text::{chars_of, contains_chars, lowercase_chars, matches_at, text_of};

fn chars(text: &str) -> Vec<char> {
    text.chars().collect()
}

#[test]
fn chars_and_text_convert_both_ways() {
    assert_eq!(chars_of("héllo"), vec!['h', 'é', 'l', 'l', 'o']);
    assert_eq!(text_of(&vec!['a', 'ß', 'c']), "aßc");
    assert_eq!(text_of(&Vec::new()), "");
    assert!(chars_of("").is_empty());
    assert_eq!(text_of(&chars_of("round trip")), "round trip");
}

#[test]
fn lowercase_folds_letters() {
    assert_eq!(lowercase_chars("AAPL"), chars("aapl"));
    assert_eq!(lowercase_chars("Apple Inc."), chars("apple inc."));
    assert_eq!(lowercase_chars("ÉCOLE"), chars("école"));
    assert_eq!(lowercase_chars("already lower 123"), chars("already lower 123"));
}

#[test]
fn run_is_found_at_its_position_only() {
    let haystack = chars("banana");
    let needle = chars("nan");
    assert!(!matches_at(&haystack, &needle, 0));
    assert!(!matches_at(&haystack, &needle, 1));
    assert!(matches_at(&haystack, &needle, 2));
    assert!(!matches_at(&haystack, &needle, 3));
    assert!(!matches_at(&haystack, &needle, 4));
    assert!(!matches_at(&haystack, &needle, 100));
    assert!(!matches_at(&haystack, &needle, usize::MAX));
}

#[test]
fn empty_run_is_found_up_to_the_end() {
    let haystack = chars("abc");
    let empty = Vec::new();
    assert!(matches_at(&haystack, &empty, 0));
    assert!(matches_at(&haystack, &empty, 3));
    assert!(!matches_at(&haystack, &empty, 4));
}

#[test]
fn contains_finds_runs_anywhere() {
    assert!(contains_chars(&chars("banana"), &chars("ban")));
    assert!(contains_chars(&chars("banana"), &chars("nan")));
    assert!(contains_chars(&chars("banana"), &chars("ana")));
    assert!(contains_chars(&chars("banana"), &chars("a")));
    assert!(contains_chars(&chars("banana"), &chars("banana")));
    assert!(contains_chars(&chars("banana"), &chars("")));
    assert!(contains_chars(&chars(""), &chars("")));
}

#[test]
fn contains_rejects_what_is_not_there() {
    assert!(!contains_chars(&chars("banana"), &chars("nab")));
    assert!(!contains_chars(&chars("banana"), &chars("bananas")));
    assert!(!contains_chars(&chars("banana"), &chars("B")));
    assert!(!contains_chars(&chars(""), &chars("a")));
    assert!(!contains_chars(&chars("aab"), &chars("abb")));
}
