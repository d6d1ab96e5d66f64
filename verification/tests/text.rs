use add_to_notion::text::{chars_of, contains_text, remove_char, same_text};

#[test]
fn chars_are_characters_not_bytes() {
    assert_eq!(chars_of("aé✓🐢"), vec!['a', 'é', '✓', '🐢']);
    assert_eq!(chars_of(""), Vec::<char>::new());
}

#[test]
fn remove_char_drops_every_occurrence() {
    assert_eq!(remove_char("a-b--c-", '-'), "abc");
    assert_eq!(remove_char("---", '-'), "");
    assert_eq!(remove_char("abc", '-'), "abc");
    assert_eq!(remove_char("", '-'), "");
}

#[test]
fn contains_text_finds_substrings() {
    assert!(contains_text("oh yes", "yes"));
    assert!(contains_text("yes", "yes"));
    assert!(contains_text("ayesb", "yes"));
    assert!(contains_text("anything", ""));
    assert!(contains_text("", ""));
    assert!(!contains_text("ye", "yes"));
    assert!(!contains_text("", "yes"));
    assert!(!contains_text("y es", "yes"));
    assert!(!contains_text("YES", "yes"));
}

#[test]
fn contains_text_agrees_with_std() {
    let pairs = [("aab", "ab"), ("abab", "bab"), ("aaa", "aaaa"), ("é✓", "✓"), ("x", "x")];
    for (text, word) in pairs {
        assert_eq!(contains_text(text, word), text.contains(word));
    }
}

#[test]
fn same_text_compares_characters() {
    assert!(same_text("Tags", "Tags"));
    assert!(!same_text("Tags", "tags"));
    assert!(!same_text("Tags", "Tag"));
}
