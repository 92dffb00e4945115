use item_client::text::{chars_of, reads_in_lower_case, same_text, separates, to_lower};

#[test]
fn separators_are_the_unicode_white_space() {
    let mut code: u32 = 0;
    while code <= 0x10ffff {
        if let Some(c) = char::from_u32(code) {
            assert_eq!(separates(c), c.is_whitespace(), "U+{:04X}", code);
        }
        code += 1;
    }
}

#[test]
fn separators_named_one_by_one() {
    for c in [' ', '\t', '\n', '\u{b}', '\u{c}', '\r', '\u{85}', '\u{a0}', '\u{1680}', '\u{2000}',
        '\u{200a}', '\u{2028}', '\u{2029}', '\u{202f}', '\u{205f}', '\u{3000}']
    {
        assert!(separates(c), "{:?}", c);
    }
    for c in ['a', '0', '-', '\u{8}', '\u{e}', '\u{1f}', '\u{200b}', '\u{feff}', '\u{2060}', '越'] {
        assert!(!separates(c), "{:?}", c);
    }
}

#[test]
fn lower_case_is_the_ascii_lower_case() {
    let mut code: u32 = 0;
    while code <= 0x10ffff {
        if let Some(c) = char::from_u32(code) {
            assert_eq!(to_lower(c), c.to_ascii_lowercase(), "U+{:04X}", code);
        }
        code += 1;
    }
}

#[test]
fn lower_case_of_letters_and_others() {
    assert_eq!(to_lower('A'), 'a');
    assert_eq!(to_lower('Z'), 'z');
    assert_eq!(to_lower('P'), 'p');
    assert_eq!(to_lower('a'), 'a');
    assert_eq!(to_lower('@'), '@');
    assert_eq!(to_lower('['), '[');
    assert_eq!(to_lower('Ä'), 'Ä');
    assert_eq!(to_lower('1'), '1');
}

#[test]
fn chars_come_out_in_order() {
    assert_eq!(chars_of(""), Vec::<char>::new());
    assert_eq!(chars_of("get a"), vec!['g', 'e', 't', ' ', 'a']);
    assert_eq!(chars_of("größe 越"), vec!['g', 'r', 'ö', 'ß', 'e', ' ', '越']);
}

#[test]
fn same_text_compares_every_character() {
    assert!(same_text("", ""));
    assert!(same_text("get", "get"));
    assert!(same_text("schlüssel", "schlüssel"));
    assert!(!same_text("get", "Get"));
    assert!(!same_text("get", "ge"));
    assert!(!same_text("ge", "get"));
    assert!(!same_text("get", "set"));
    assert!(!same_text("", " "));
}

#[test]
fn lower_case_reading_normalizes_ascii_only() {
    assert!(reads_in_lower_case("pong", "pong"));
    assert!(reads_in_lower_case("PONG", "pong"));
    assert!(reads_in_lower_case("Pong", "pong"));
    assert!(reads_in_lower_case("pOnG", "pong"));
    assert!(reads_in_lower_case("", ""));
    assert!(!reads_in_lower_case("", "pong"));
    assert!(!reads_in_lower_case("pong ", "pong"));
    assert!(!reads_in_lower_case("pon", "pong"));
    assert!(!reads_in_lower_case("ping", "pong"));
    assert!(!reads_in_lower_case("pong", "PONG"));
    assert!(reads_in_lower_case("ÄB", "Äb"));
    assert!(!reads_in_lower_case("ÄB", "äb"));
}
