use gemini_client::text::{chars_of, clean_text, is_whitespace};

fn reference_clean(raw: &str) -> String {
    let trimmed = raw.trim();
    let opened = trimmed.strip_prefix("```json").unwrap_or(trimmed);
    let closed = opened.strip_suffix("```").unwrap_or(opened);
    closed.replace('\n', "")
}

#[test]
fn clean_text_keeps_clean_payload() {
    let payload = "{\"command\":\"greeting\",\"parameters\":{}}";
    assert_eq!(clean_text(payload), payload);
}

#[test]
fn clean_text_is_stable_on_its_result_for_a_fenced_payload() {
    let once = clean_text("```json\n{\"command\":\"greeting\",\"parameters\":{}}\n```");
    let twice = clean_text(&once);
    assert_eq!(once, twice);
}

#[test]
fn clean_text_strips_fences() {
    let fenced = "```json\n{\"command\":\"greeting\",\"parameters\":{}}\n```";
    assert_eq!(clean_text(fenced), "{\"command\":\"greeting\",\"parameters\":{}}");
}

#[test]
fn clean_text_trims_before_it_strips_fences() {
    let fenced = " \t\n```json\n{\"command\":\"2\",\"parameters\":[1,2]}\n```\r\n  ";
    assert_eq!(clean_text(fenced), "{\"command\":\"2\",\"parameters\":[1,2]}");
}

#[test]
fn clean_text_of_empty_and_blank_text_is_empty() {
    assert_eq!(clean_text(""), "");
    assert_eq!(clean_text(" \n\t\r "), "");
    assert_eq!(clean_text("\u{3000}\u{2003}"), "");
}

#[test]
fn clean_text_of_bare_fences_is_empty() {
    assert_eq!(clean_text("```json```"), "");
    assert_eq!(clean_text("```json"), "");
    assert_eq!(clean_text("```"), "");
    assert_eq!(clean_text("```json\n```"), "");
}

#[test]
fn clean_text_takes_one_fence_off_each_end() {
    assert_eq!(clean_text("```json```json{}``````"), "```json{}```");
    assert_eq!(clean_text("``````"), "```");
}

#[test]
fn clean_text_leaves_fences_inside_alone() {
    assert_eq!(clean_text("a```json b ``` c"), "a```json b ``` c");
    assert_eq!(clean_text("x```json"), "x```json");
}

#[test]
fn clean_text_needs_the_whole_opening_fence() {
    assert_eq!(clean_text("```jso{}"), "```jso{}");
    assert_eq!(clean_text("```{}```"), "```{}");
    assert_eq!(clean_text("``"), "``");
}

#[test]
fn clean_text_removes_every_line_feed_and_nothing_else() {
    assert_eq!(clean_text("{\n\"a\":\n1\n}"), "{\"a\":1}");
    assert_eq!(clean_text("a\r\nb"), "a\rb");
    assert_eq!(clean_text("a\tb c"), "a\tb c");
    assert_eq!(clean_text("a\n\n\nb"), "ab");
}

#[test]
fn clean_text_keeps_white_space_that_the_fences_uncover() {
    assert_eq!(clean_text("```json {\"a\":1} ```"), " {\"a\":1} ");
    assert_eq!(clean_text("```json\n  {}\n```"), "  {}");
}

#[test]
fn clean_text_handles_text_outside_ascii() {
    assert_eq!(clean_text("\u{a0}```json\n{\"é\":\"日本\"}\n```\u{2028}"), "{\"é\":\"日本\"}");
    assert_eq!(clean_text("é\nü"), "éü");
}

#[test]
fn clean_text_agrees_with_the_string_operations_of_std() {
    let samples = [
        "",
        " ",
        "```json\n{\"command\":\"greeting\",\"parameters\":{}}\n```",
        "  ```json{}```  ",
        "```json```",
        "```",
        "````",
        "```json\n```json\n{}\n```\n```",
        "\n\n{\"command\": \"1\",\n \"parameters\": {}}\n\n",
        "plain text",
        "\u{2003}x\u{2003}",
        "```JSON\n{}\n```",
        "``` json\n{}\n```",
        "`",
        "``` ```",
    ];
    for sample in samples {
        assert_eq!(clean_text(sample), reference_clean(sample), "for {:?}", sample);
    }
}

#[test]
fn is_whitespace_agrees_with_std_on_every_char() {
    let mut count: u32 = 0;
    for code in 0..=0x10FFFFu32 {
        if let Some(c) = char::from_u32(code) {
            assert_eq!(is_whitespace(c), c.is_whitespace(), "for U+{:04X}", code);
            if is_whitespace(c) {
                count += 1;
            }
        }
    }
    assert_eq!(count, 25);
}

#[test]
fn is_whitespace_on_chosen_chars() {
    for c in [' ', '\t', '\n', '\u{b}', '\u{c}', '\r', '\u{85}', '\u{a0}', '\u{3000}'] {
        assert!(is_whitespace(c));
    }
    for c in ['a', '`', '{', '\u{8}', '\u{e}', '\u{200b}', '\u{180e}', '\u{feff}'] {
        assert!(!is_whitespace(c));
    }
}

#[test]
fn chars_of_gives_the_chars_in_order() {
    assert_eq!(chars_of(""), Vec::<char>::new());
    assert_eq!(chars_of("a`é日"), vec!['a', '`', 'é', '日']);
}
