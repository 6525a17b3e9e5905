use affect_server::text::same_text;
use affect_server::token::split_token;

#[test]
fn token_splits_at_its_two_dots() {
    let parts = split_token("head.body.tail").unwrap();
    assert_eq!(parts.header, "head");
    assert_eq!(parts.payload, "body");
    assert_eq!(parts.signature, "tail");
    assert_eq!(parts.signed, "head.body");
}

#[test]
fn segments_may_be_empty() {
    let parts = split_token("..").unwrap();
    assert_eq!(parts.header, "");
    assert_eq!(parts.payload, "");
    assert_eq!(parts.signature, "");
    assert_eq!(parts.signed, ".");
    let parts = split_token("a..").unwrap();
    assert_eq!(parts.header, "a");
    assert_eq!(parts.signed, "a.");
    let parts = split_token("..c").unwrap();
    assert_eq!(parts.signature, "c");
    assert_eq!(parts.signed, ".");
}

#[test]
fn other_numbers_of_dots_do_not_split() {
    assert!(split_token("").is_none());
    assert!(split_token("abc").is_none());
    assert!(split_token(".").is_none());
    assert!(split_token("a.b").is_none());
    assert!(split_token("...").is_none());
    assert!(split_token("a.b.c.d").is_none());
    assert!(split_token("a.b.c.").is_none());
}

#[test]
fn text_outside_ascii_does_not_split() {
    assert!(split_token("a.b\u{e9}.c").is_none());
    assert!(split_token("\u{1f600}.b.c").is_none());
    assert!(split_token("a.b.c\u{7f}").is_some());
    assert!(split_token("a.b.c\u{80}").is_none());
}

#[test]
fn texts_are_the_same_when_every_character_is() {
    assert!(same_text("", ""));
    assert!(same_text("RS256", "RS256"));
    assert!(!same_text("RS256", "rs256"));
    assert!(!same_text("RS256", "RS25"));
    assert!(!same_text("RS25", "RS256"));
    assert!(!same_text("", " "));
    assert!(same_text("\u{e9}t\u{e9}", "\u{e9}t\u{e9}"));
    assert!(!same_text("\u{e9}", "e"));
}
