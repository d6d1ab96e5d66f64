use add_to_notion::extract::{
    collect_groups, elements_from, handle_text, match_regex, title_of, ExtractError, TextElements,
    LINK_PATTERN, TAG_PATTERN,
};

fn strings(items: &[&str]) -> Vec<String> {
    items.iter().map(|item| item.to_string()).collect()
}

#[test]
fn weekend_trip_yields_title_link_and_tags() {
    let elements =
        handle_text("Weekend trip\nhttps://example.com/a #beach @vacay".to_string()).unwrap();
    assert_eq!(
        elements,
        TextElements {
            title: Some("Weekend trip".to_string()),
            url: Some("https://example.com/a".to_string()),
            tags: Some(strings(&["beach", "vacay"])),
        }
    );
}

#[test]
fn text_without_markers_has_no_tags() {
    let elements = handle_text("Just a note about nothing".to_string()).unwrap();
    assert_eq!(elements.tags, None);
    assert_ne!(elements.tags, Some(vec![]));
    assert_eq!(elements.url, None);
    assert_eq!(elements.title, Some("Just a note about nothing".to_string()));
}

#[test]
fn marker_at_the_very_start_is_no_tag() {
    let elements = handle_text("#first word".to_string()).unwrap();
    assert_eq!(elements.tags, None);
}

#[test]
fn marker_without_space_before_it_is_no_tag() {
    let elements = handle_text("mail me at someone@example.com".to_string()).unwrap();
    assert_eq!(elements.tags, None);
}

#[test]
fn tags_keep_order_and_repetitions() {
    let elements = handle_text("hallo #beach #vacay\nok #lol #beach".to_string()).unwrap();
    assert_eq!(elements.tags, Some(strings(&["beach", "vacay", "lol", "beach"])));
}

#[test]
fn only_the_first_link_is_kept() {
    let elements =
        handle_text("see http://one.example/x and https://two.example/y".to_string()).unwrap();
    assert_eq!(elements.url, Some("http://one.example/x".to_string()));
}

#[test]
fn link_ends_at_whitespace() {
    let elements = handle_text("https://example.com/a?b=c#frag\tnext".to_string()).unwrap();
    assert_eq!(elements.url, Some("https://example.com/a?b=c#frag".to_string()));
}

#[test]
fn title_is_the_whole_text_without_line_break() {
    assert_eq!(title_of("one line only"), "one line only");
    assert_eq!(title_of(""), "");
}

#[test]
fn title_stops_at_the_first_line_break() {
    assert_eq!(title_of("first\nsecond\nthird"), "first");
    assert_eq!(title_of("\nsecond"), "");
}

#[test]
fn title_drops_a_carriage_return_before_the_line_feed() {
    assert_eq!(title_of("first\r\nsecond"), "first");
    assert_eq!(title_of("first\r\r\nsecond"), "first\r");
    assert_eq!(title_of("first\r"), "first\r");
    assert_eq!(title_of("a\rb\nc"), "a\rb");
}

#[test]
fn title_agrees_with_std_lines() {
    for text in ["", "a", "a\nb", "a\r\nb", "\r\n", "\n", "a\r", "é✓\nz", "x\r\r\n"] {
        let expected = text.lines().next().unwrap_or(text).to_string();
        assert_eq!(title_of(text), expected);
    }
}

#[test]
fn title_of_a_title_is_the_title() {
    for text in ["Weekend trip\nhttps://example.com/a", "a\r\nb", "", "x\r\r\ny", "plain"] {
        let title = title_of(text);
        assert_eq!(title_of(&title), title);
    }
}

#[test]
fn title_counts_characters_not_bytes() {
    assert_eq!(title_of("żółw 🐢\nrest"), "żółw 🐢");
}

#[test]
fn match_regex_returns_first_groups() {
    assert_eq!(
        match_regex(TAG_PATTERN, "x #a @b\n#c"),
        Ok(Some(strings(&["a", "b", "c"])))
    );
    assert_eq!(match_regex(LINK_PATTERN, "nothing here"), Ok(None));
}

#[test]
fn match_regex_reports_an_invalid_pattern() {
    assert_eq!(match_regex("(unclosed", "text"), Err(ExtractError::InvalidPattern));
}

#[test]
fn match_regex_reports_a_missing_group() {
    assert_eq!(match_regex("t", "text"), Err(ExtractError::MissingGroup));
    assert_eq!(match_regex("(a)|b", "b"), Err(ExtractError::MissingGroup));
    assert_eq!(match_regex("t", "nope"), Ok(None));
}

#[test]
fn unicode_words_are_tags() {
    let elements = handle_text("note #überraschung @名前".to_string()).unwrap();
    assert_eq!(elements.tags, Some(strings(&["überraschung", "名前"])));
}

#[test]
fn collect_groups_reads_the_groups_off() {
    assert_eq!(collect_groups(vec![]), Ok(None));
    assert_eq!(
        collect_groups(vec![Some("a".to_string()), Some("a".to_string())]),
        Ok(Some(strings(&["a", "a"])))
    );
    assert_eq!(
        collect_groups(vec![Some("a".to_string()), None]),
        Err(ExtractError::MissingGroup)
    );
}

#[test]
fn elements_take_the_first_link() {
    let elements = elements_from(
        "t\nrest",
        Some(strings(&["http://a", "http://b"])),
        Some(strings(&["x"])),
    );
    assert_eq!(
        elements,
        TextElements {
            title: Some("t".to_string()),
            url: Some("http://a".to_string()),
            tags: Some(strings(&["x"])),
        }
    );
    let bare = elements_from("t", None, None);
    assert_eq!(bare, TextElements { title: Some("t".to_string()), url: None, tags: None });
}

#[test]
fn errors_have_a_message() {
    assert_eq!(ExtractError::InvalidPattern.message(), "the search pattern is not valid");
    assert_eq!(ExtractError::MissingGroup.message(), "a match lacks the group to read");
}

#[test]
fn patterns_are_the_two_searches() {
    assert_eq!(LINK_PATTERN, "(https?:\\/\\/[^\\s]+)");
    assert_eq!(TAG_PATTERN, "\\s(?:@|#)(\\w+)");
}
