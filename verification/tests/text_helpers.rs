use alarm_relay::apis::telegram::escape_markdown_v2;
use alarm_relay::name_map::position_of;
use alarm_relay::serial_handler::decode_delimiter;
use alarm_relay::text::{
    chars_of, contains_text, remove_breaks, same_text, same_text_but_case, split_lines,
    string_of, trim, trimmed_lines,
};

#[test]
fn chars_and_back() {
    let chars = chars_of("Tür 1");
    assert_eq!(chars, vec!['T', 'ü', 'r', ' ', '1']);
    assert_eq!(string_of(&chars), "Tür 1");
    assert!(same_text("abc", "abc"));
    assert!(!same_text("abc", "abC"));
}

#[test]
fn trim_takes_white_space_from_both_ends() {
    assert_eq!(trim("  a b \r\n"), "a b");
    assert_eq!(trim("\u{a0}x\u{2003}"), "x");
    assert_eq!(trim(" \t\n"), "");
    assert_eq!(trim(""), "");
    assert_eq!(trim("x"), "x");
}

#[test]
fn breaks_are_removed_everywhere() {
    assert_eq!(remove_breaks("a\nb\r\tc d"), "abc d");
    assert_eq!(remove_breaks("\n\n"), "");
}

#[test]
fn parts_are_found_where_they_stand() {
    assert!(contains_text("FEUER Musterstr 1", "FEUER"));
    assert!(contains_text("FEUER Musterstr 1", "str 1"));
    assert!(contains_text("abc", ""));
    assert!(contains_text("", ""));
    assert!(!contains_text("abc", "abcd"));
    assert!(!contains_text("FEUER", "feuer"));
    assert!(!contains_text("", "a"));
}

#[test]
fn lines_are_split_at_line_feeds() {
    assert_eq!(split_lines("a\nb"), vec!["a".to_string(), "b".to_string()]);
    assert_eq!(split_lines("a\r\n"), vec!["a\r".to_string(), "".to_string()]);
    assert_eq!(split_lines(""), vec!["".to_string()]);
    assert_eq!(
        trimmed_lines(" a \r\n\r\n\n b\r\n"),
        vec!["a".to_string(), "b".to_string()]
    );
    assert!(trimmed_lines(" \n \r\n").is_empty());
}

#[test]
fn markup_characters_get_a_backslash() {
    assert_eq!(escape_markdown_v2("a_b*c.d!"), "a\\_b\\*c\\.d\\!");
    assert_eq!(escape_markdown_v2("\\"), "\\\\");
    assert_eq!(escape_markdown_v2("[x](y)~`>#+-=|{}"), "\\[x\\]\\(y\\)\\~\\`\\>\\#\\+\\-\\=\\|\\{\\}");
    assert_eq!(escape_markdown_v2("plain text, ok?"), "plain text, ok?");
    assert_eq!(escape_markdown_v2(""), "");
}

#[test]
fn delimiter_escapes_are_read() {
    assert_eq!(decode_delimiter("\\r\\n"), "\r\n");
    assert_eq!(decode_delimiter("\\0"), "\0");
    assert_eq!(decode_delimiter("END\\n"), "END\n");
    assert_eq!(decode_delimiter("\\\\r"), "\\\r");
    assert_eq!(decode_delimiter("\\x"), "\\x");
    assert_eq!(decode_delimiter(""), "");
}

#[test]
fn position_is_the_first_one() {
    let list = vec!["a".to_string(), "b".to_string(), "a".to_string()];
    assert_eq!(position_of(&list, "a"), Some(0));
    assert_eq!(position_of(&list, "b"), Some(1));
    assert_eq!(position_of(&list, "c"), None);
}

#[test]
fn white_space_is_what_the_table_says() {
    let mut count = 0;
    for code in 0..=0x10ffffu32 {
        let c = match char::from_u32(code) {
            Some(c) => c,
            None => continue,
        };
        let listed = (0x09..=0x0d).contains(&code)
            || code == 0x20
            || code == 0x85
            || code == 0xa0
            || code == 0x1680
            || (0x2000..=0x200a).contains(&code)
            || code == 0x2028
            || code == 0x2029
            || code == 0x202f
            || code == 0x205f
            || code == 0x3000;
        if listed {
            count += 1;
        }
        let mut text = String::new();
        text.push(c);
        assert_eq!(trim(&text).is_empty(), listed, "code point {:x}", code);
    }
    assert_eq!(count, 25);
}

#[test]
fn case_of_ascii_letters_may_differ() {
    assert!(same_text_but_case("Subject", "SUBJECT"));
    assert!(same_text_but_case("subject", "Subject"));
    assert!(same_text_but_case("", ""));
    assert!(same_text_but_case("X-1", "x-1"));
    assert!(!same_text_but_case("Subject", "Subjec"));
    assert!(!same_text_but_case("a", "b"));
    assert!(!same_text_but_case("\u{c4}", "\u{e4}"));
    assert!(!same_text_but_case("@", "`"));
    assert!(!same_text_but_case("[", "{"));
}
