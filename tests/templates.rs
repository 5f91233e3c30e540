use uaparser::{clean_escapes, has_group, none_if_empty, Template};

fn groups(items: &[Option<&str>]) -> Vec<Option<String>> {
    items.iter().map(|g| g.map(String::from)).collect()
}

#[test]
fn literal_template_is_trimmed_and_unchanged() {
    let t = Template::new("  Chrome Mobile \t".to_string());
    assert_eq!(t.expand(&groups(&[Some("x"), Some("y")])), "Chrome Mobile");
    assert_eq!(t.expand(&groups(&[Some("x")])), "Chrome Mobile");
    assert_eq!(t.as_str(), "  Chrome Mobile \t");
}

#[test]
fn dollar_without_digit_passes_through() {
    let t = Template::new("US$ price$".to_string());
    assert_eq!(t.expand(&groups(&[Some("all"), Some("one")])), "US$ price$");
}

#[test]
fn placeholders_take_group_text() {
    let t = Template::new("$1 $2".to_string());
    assert_eq!(t.expand(&groups(&[Some("A B"), Some("A"), Some("B")])), "A B");
    let t = Template::new("$2-$1".to_string());
    assert_eq!(t.expand(&groups(&[Some("z"), Some("x"), Some("y")])), "y-x");
}

#[test]
fn absent_or_missing_group_is_empty() {
    let t = Template::new("Nokia $1$3".to_string());
    assert_eq!(t.expand(&groups(&[Some("z"), None])), "Nokia");
    let t = Template::new("$9".to_string());
    assert_eq!(t.expand(&groups(&[Some("z")])), "");
}

#[test]
fn inserted_text_is_not_rescanned() {
    let t = Template::new("$1".to_string());
    assert_eq!(t.expand(&groups(&[Some("w"), Some("$2"), Some("no")])), "$2");
}

#[test]
fn zero_and_two_digit_placeholders() {
    let t = Template::new("$0|$12".to_string());
    assert_eq!(t.expand(&groups(&[Some("w"), Some("a")])), "$0|a2");
}

#[test]
fn clean_escapes_drops_needless_backslashes() {
    assert_eq!(clean_escapes(r"a\/b\!c\ d"), "a/b!c d");
    assert_eq!(clean_escapes(r"\d+\.\d"), r"\d+\.\d");
    assert_eq!(clean_escapes(r"x\\/"), r"x\/");
    assert_eq!(clean_escapes(""), "");
    assert_eq!(clean_escapes("\\"), "\\");
}

#[test]
fn has_group_finds_dollar() {
    assert!(has_group("$1 Mobile"));
    assert!(!has_group("Mobile"));
    assert!(!has_group(""));
}

#[test]
fn none_if_empty_maps_empty_to_none() {
    assert_eq!(none_if_empty(String::new()), None);
    assert_eq!(none_if_empty("a".to_string()), Some("a".to_string()));
}

#[test]
fn trim_drops_unicode_white_space() {
    assert_eq!(uaparser::text::trim(" \t a b \u{3000}\u{a0}"), "a b");
    assert_eq!(uaparser::text::trim("   "), "");
    assert_eq!(uaparser::text::trim(""), "");
    assert_eq!(uaparser::text::trim("x"), "x");
}
