use github_client::text::{
    chars_of, decimal_text, join_chars, order_chars, ordered_set, parse_decimal, parse_unsigned,
    same_text, split_chars, string_of, text_ends_with, TextOrder,
};

fn pieces(text: &str) -> Vec<String> {
    split_chars(&chars_of(text), '/').iter().map(string_of).collect()
}

#[test]
fn texts_are_cut_at_every_separator() {
    assert_eq!(pieces("refs/heads/main"), vec!["refs", "heads", "main"]);
    assert_eq!(pieces("main"), vec!["main"]);
    assert_eq!(pieces(""), vec![""]);
    assert_eq!(pieces("/"), vec!["", ""]);
    assert_eq!(pieces("a//b/"), vec!["a", "", "b", ""]);
    assert_eq!(pieces("/a"), vec!["", "a"]);
}

#[test]
fn texts_are_cut_as_std_cuts_them() {
    for text in ["", "/", "//", "a", "a/", "/a", "a/b", "a//b", "é/ü/", "refs/heads/x/y"] {
        let expected: Vec<String> = text.split('/').map(|piece| piece.to_string()).collect();
        assert_eq!(pieces(text), expected, "{}", text);
    }
}

#[test]
fn pieces_are_joined_with_the_separator_between() {
    let all = split_chars(&chars_of("a/b//c"), '/');
    assert_eq!(string_of(&join_chars(&all, 0, '/')), "a/b//c");
    assert_eq!(string_of(&join_chars(&all, 1, '/')), "b//c");
    assert_eq!(string_of(&join_chars(&all, 3, '/')), "c");
    assert_eq!(string_of(&join_chars(&all, 4, '/')), "");
    assert_eq!(string_of(&join_chars(&all, 2, '-')), "-c");
}

#[test]
fn numbers_are_written_in_decimal() {
    assert_eq!(decimal_text(0), "0");
    assert_eq!(decimal_text(7), "7");
    assert_eq!(decimal_text(10), "10");
    assert_eq!(decimal_text(1234567890), "1234567890");
    assert_eq!(decimal_text(usize::MAX), usize::MAX.to_string());
}

#[test]
fn numbers_are_read_as_std_reads_them() {
    for text in [
        "", "0", "00", "7", "+7", "-7", "++7", "+", "-", "42", "4 2", " 42", "42 ", "4_2", "0x10",
        "18446744073709551615", "18446744073709551616", "99999999999999999999999", "١٢٣", "1e3",
    ] {
        assert_eq!(parse_decimal(&chars_of(text)), text.parse::<usize>().ok(), "{}", text);
    }
    assert_eq!(parse_decimal(&chars_of("42")), Some(42));
    assert_eq!(parse_unsigned(&chars_of("777"), 8, 511), Some(511));
    assert_eq!(parse_unsigned(&chars_of("1000"), 8, 511), None);
    assert_eq!(parse_unsigned(&chars_of("102"), 2, 100), None);
    assert_eq!(parse_unsigned(&chars_of("101"), 2, 100), Some(5));
}

#[test]
fn written_numbers_read_back() {
    for number in [0usize, 1, 9, 10, 99, 100, 12345, usize::MAX - 1, usize::MAX] {
        assert_eq!(parse_decimal(&chars_of(decimal_text(number).as_str())), Some(number));
    }
}

#[test]
fn endings_are_found() {
    assert!(text_ends_with("refs/heads/foo", "heads/foo"));
    assert!(!text_ends_with("refs/heads/foobar", "heads/foo"));
    assert!(text_ends_with("abc", ""));
    assert!(text_ends_with("", ""));
    assert!(text_ends_with("abc", "abc"));
    assert!(!text_ends_with("bc", "abc"));
    assert!(!text_ends_with("", "a"));
    assert!(same_text("abc", "abc") && !same_text("abc", "abd") && !same_text("abc", "ab"));
}

#[test]
fn texts_are_ordered_as_a_dictionary_orders_them() {
    let order = |a: &str, b: &str| order_chars(&chars_of(a), &chars_of(b));
    assert_eq!(order("a", "b"), TextOrder::Before);
    assert_eq!(order("b", "a"), TextOrder::After);
    assert_eq!(order("a", "a"), TextOrder::Same);
    assert_eq!(order("", "a"), TextOrder::Before);
    assert_eq!(order("a", "ab"), TextOrder::Before);
    assert_eq!(order("ab", "a"), TextOrder::After);
    assert_eq!(order("Z", "a"), TextOrder::Before);
    assert_eq!(order("", ""), TextOrder::Same);
}

#[test]
fn an_ordered_set_holds_each_text_once() {
    let items: Vec<String> = ["b", "a", "c", "a", "b", ""].iter().map(|s| s.to_string()).collect();
    assert_eq!(ordered_set(&items), vec!["", "a", "b", "c"]);
    assert_eq!(ordered_set(&Vec::new()), Vec::<String>::new());
}
