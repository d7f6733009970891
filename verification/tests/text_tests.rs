use trial_service::text::{chars_of, find_comma, sanitize, split_fields};

fn std_split(line: &str) -> Vec<String> {
    line.split(',').map(|part| part.to_string()).collect()
}

#[test]
fn split_of_a_plain_line() {
    assert_eq!(split_fields("a,b,c"), vec!["a", "b", "c"]);
}

#[test]
fn split_without_comma_is_one_field() {
    assert_eq!(split_fields("abc"), vec!["abc"]);
}

#[test]
fn split_of_the_empty_line_is_one_empty_field() {
    assert_eq!(split_fields(""), vec![""]);
}

#[test]
fn split_keeps_empty_fields() {
    assert_eq!(split_fields(",a,,b,"), vec!["", "a", "", "b", ""]);
}

#[test]
fn split_counts_characters_not_bytes() {
    assert_eq!(split_fields("привет,мир,🚀"), vec!["привет", "мир", "🚀"]);
}

#[test]
fn split_agrees_with_the_standard_library() {
    let lines = [
        "",
        ",",
        ",,",
        "a",
        "a,",
        ",a",
        "2024-01-01T00:00:00+00:00,a@b.com,,11111111-1111-1111-1111-111111111111,dev",
        "é,ü,,ß",
        "no comma at all",
    ];
    for line in lines {
        assert_eq!(split_fields(line), std_split(line), "line {:?}", line);
    }
}

#[test]
fn chars_of_gives_every_character() {
    assert_eq!(chars_of("aé🚀"), vec!['a', 'é', '🚀']);
    assert_eq!(chars_of(""), Vec::<char>::new());
}

#[test]
fn find_comma_gives_the_first_comma_from_the_start() {
    let chars = chars_of("ab,cd,ef");
    assert_eq!(find_comma(&chars, 0), 2);
    assert_eq!(find_comma(&chars, 2), 2);
    assert_eq!(find_comma(&chars, 3), 5);
    assert_eq!(find_comma(&chars, 6), 8);
    assert_eq!(find_comma(&chars, 8), 8);
}

#[test]
fn sanitize_leaves_a_safe_text_as_it_is() {
    assert_eq!(sanitize(""), "");
    assert_eq!(sanitize("@handle"), "@handle");
    assert_eq!(sanitize("a b;c\td"), "a b;c\td");
    assert_eq!(sanitize("имя 🚀"), "имя 🚀");
}

#[test]
fn sanitize_puts_a_space_for_every_comma() {
    assert_eq!(sanitize("a,b"), "a b");
    assert_eq!(sanitize(","), " ");
    assert_eq!(sanitize(",a,,b,"), " a  b ");
}

#[test]
fn sanitize_puts_a_space_for_every_line_feed() {
    assert_eq!(sanitize("a\nb"), "a b");
    assert_eq!(sanitize("\n"), " ");
    assert_eq!(sanitize("\n\na\n"), "  a ");
}

#[test]
fn sanitize_leaves_a_carriage_return_as_it_is() {
    assert_eq!(sanitize("\r"), "\r");
    assert_eq!(sanitize("a\rb"), "a\rb");
    assert_eq!(sanitize("a\r\nb"), "a\r b");
}

#[test]
fn sanitize_keeps_the_number_of_characters() {
    for text in ["", ",", "a,b\nc", "é,ü\r,ß", "🚀,🚀"] {
        let clean = sanitize(text);
        assert_eq!(clean.chars().count(), text.chars().count());
        assert!(!clean.contains(','));
        assert!(!clean.contains('\n'));
    }
}

#[test]
fn sanitize_changes_nothing_but_commas_and_line_feeds() {
    for text in ["", "a\rb", "tab\there", "a;b|c", "é,ü\r,ß\n", "\u{0}\u{b}\u{c}\u{85}\u{2028}"] {
        let expected: String =
            text.chars().map(|c| if c == ',' || c == '\n' { ' ' } else { c }).collect();
        assert_eq!(sanitize(text), expected);
    }
}

#[test]
fn sanitized_text_is_one_field() {
    assert_eq!(split_fields(&sanitize("a,b,c")), vec!["a b c"]);
}
