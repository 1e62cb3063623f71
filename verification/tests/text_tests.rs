use notepad::search::{find_next_match, find_previous_match, TextRange};
use notepad::text::{
    byte_to_char_index, char_to_byte_index, char_utf8_width, chars_of, cursor_line_column,
    decimal_string, find_from, find_last_before, matches_at, read_char_range, remove_char_range,
};

#[test]
fn char_to_byte_on_ascii() {
    assert_eq!(char_to_byte_index("hello", 0), 0);
    assert_eq!(char_to_byte_index("hello", 3), 3);
    assert_eq!(char_to_byte_index("hello", 5), 5);
}

#[test]
fn char_to_byte_on_multibyte_text() {
    // 'é' takes two bytes, '€' three, '😀' four.
    let text = "aé€😀b";
    assert_eq!(char_to_byte_index(text, 1), 1);
    assert_eq!(char_to_byte_index(text, 2), 3);
    assert_eq!(char_to_byte_index(text, 3), 6);
    assert_eq!(char_to_byte_index(text, 4), 10);
    assert_eq!(char_to_byte_index(text, 5), 11);
}

#[test]
fn char_to_byte_clamps_past_end() {
    assert_eq!(char_to_byte_index("aé", 10), 3);
    assert_eq!(char_to_byte_index("", 4), 0);
}

#[test]
fn byte_to_char_inverts_char_to_byte() {
    let text = "aé€😀b";
    for k in 0..=5 {
        assert_eq!(byte_to_char_index(text, char_to_byte_index(text, k)), k);
    }
    assert_eq!(byte_to_char_index(text, char_to_byte_index(text, 99)), 5);
    assert_eq!(byte_to_char_index("", 0), 0);
}

#[test]
fn utf8_widths() {
    assert_eq!(char_utf8_width('a'), 1);
    assert_eq!(char_utf8_width('é'), 2);
    assert_eq!(char_utf8_width('€'), 3);
    assert_eq!(char_utf8_width('😀'), 4);
}

#[test]
fn chars_of_lists_characters() {
    assert_eq!(chars_of("aé€"), vec!['a', 'é', '€']);
}

#[test]
fn decimal_strings() {
    assert_eq!(decimal_string(0), "0");
    assert_eq!(decimal_string(7), "7");
    assert_eq!(decimal_string(10), "10");
    assert_eq!(decimal_string(1234), "1234");
    assert_eq!(decimal_string(usize::MAX), usize::MAX.to_string());
}

#[test]
fn cursor_positions() {
    assert_eq!(cursor_line_column("ab\ncd", 0), (1, 1));
    assert_eq!(cursor_line_column("ab\ncd", 2), (1, 3));
    assert_eq!(cursor_line_column("ab\ncd", 3), (2, 1));
    assert_eq!(cursor_line_column("ab\ncd", 4), (2, 2));
    assert_eq!(cursor_line_column("ab\ncd", 40), (2, 3));
    assert_eq!(cursor_line_column("\n\n", 2), (3, 1));
}

#[test]
fn removing_a_char_range() {
    let mut s = String::from("héllo wörld");
    remove_char_range(&mut s, 1, 4);
    assert_eq!(s, "ho wörld");
    let mut t = String::from("abc");
    remove_char_range(&mut t, 1, 10);
    assert_eq!(t, "a");
    let mut u = String::from("abc");
    remove_char_range(&mut u, 5, 9);
    assert_eq!(u, "abc");
}

#[test]
fn reading_a_char_range() {
    assert_eq!(read_char_range("héllo", 1, 3), "él");
    assert_eq!(read_char_range("abc", 2, 10), "c");
    assert_eq!(read_char_range("abc", 7, 9), "");
}

#[test]
fn cut_text_put_back_restores() {
    let source_text = "one twö three";
    let cut = read_char_range(source_text, 4, 7).to_string();
    let mut rest = source_text.to_string();
    remove_char_range(&mut rest, 4, 7);
    assert_eq!(cut, "twö");
    let mut restored: String = rest.chars().take(4).collect();
    restored.push_str(&cut);
    restored.extend(rest.chars().skip(4));
    assert_eq!(restored, source_text);
}

#[test]
fn occurrence_search_over_chars() {
    let t = chars_of("abcabc");
    let q = chars_of("bc");
    assert!(matches_at(&t, &q, 1));
    assert!(!matches_at(&t, &q, 2));
    assert_eq!(find_from(&t, &q, 0), Some(1));
    assert_eq!(find_from(&t, &q, 2), Some(4));
    assert_eq!(find_from(&t, &q, 5), None);
    assert_eq!(find_last_before(&t, &q, 6), Some(4));
    assert_eq!(find_last_before(&t, &q, 5), Some(1));
    assert_eq!(find_last_before(&t, &q, 2), None);
}

#[test]
fn next_match_with_and_without_wrap() {
    assert_eq!(find_next_match("abcabc", "abc", 1, false), Some(3));
    assert_eq!(find_next_match("abcabc", "abc", 4, false), None);
    assert_eq!(find_next_match("abcabc", "abc", 4, true), Some(0));
    assert_eq!(find_next_match("abcabc", "abc", 100, true), Some(0));
    assert_eq!(find_next_match("abc", "x", 0, true), None);
    assert_eq!(find_next_match("éxéx", "x", 2, false), Some(3));
}

#[test]
fn previous_match_with_and_without_wrap() {
    assert_eq!(find_previous_match("abcabc", "abc", 6, false), Some(3));
    assert_eq!(find_previous_match("abcabc", "abc", 5, false), Some(0));
    assert_eq!(find_previous_match("abcabc", "abc", 2, false), None);
    assert_eq!(find_previous_match("abcabc", "abc", 2, true), Some(3));
    assert_eq!(find_previous_match("abc", "x", 3, true), None);
}

#[test]
fn text_range_sorts_its_ends() {
    assert_eq!(TextRange::new(5, 2), TextRange { start: 2, end: 5 });
    assert_eq!(TextRange::new(2, 5), TextRange { start: 2, end: 5 });
    assert!(TextRange::new(3, 3).is_empty());
    assert!(!TextRange::new(3, 4).is_empty());
}
