use mpv_handler::text::{
    chars_of, decimal, find, join_strings, joined, matches_at, same_text, single_backslashes,
    split_text,
};

fn chars(s: &str) -> Vec<char> {
    s.chars().collect()
}

#[test]
fn chars_of_gives_the_characters() {
    assert_eq!(chars_of("abc"), vec!['a', 'b', 'c']);
    assert_eq!(chars_of(""), Vec::<char>::new());
    assert_eq!(chars_of("a\u{e9}\u{1f600}"), vec!['a', '\u{e9}', '\u{1f600}']);
}

#[test]
fn matches_at_compares_in_place() {
    let s = chars("hello");
    assert!(matches_at(&s, &chars("hel"), 0));
    assert!(matches_at(&s, &chars("llo"), 2));
    assert!(matches_at(&s, &chars(""), 5));
    assert!(!matches_at(&s, &chars(""), 6));
    assert!(!matches_at(&s, &chars("llo"), 3));
    assert!(!matches_at(&s, &chars("hello!"), 0));
    assert!(!matches_at(&s, &chars("l"), usize::MAX));
}

#[test]
fn find_gives_the_first_occurrence() {
    let s = chars("a://b://c");
    assert_eq!(find(&s, &chars("://"), 0), Some(1));
    assert_eq!(find(&s, &chars("://"), 1), Some(1));
    assert_eq!(find(&s, &chars("://"), 2), Some(5));
    assert_eq!(find(&s, &chars("://"), 6), None);
    assert_eq!(find(&s, &chars("c"), 0), Some(8));
    assert_eq!(find(&s, &chars("d"), 0), None);
    assert_eq!(find(&s, &chars(""), 9), Some(9));
    assert_eq!(find(&s, &chars(""), 10), None);
    assert_eq!(find(&chars(""), &chars("a"), 0), None);
    // indices count characters, not bytes
    assert_eq!(find(&chars("\u{e9}\u{e9}/"), &chars("/"), 0), Some(2));
}

#[test]
fn same_text_compares_whole_strings() {
    assert!(same_text("", ""));
    assert!(same_text("play", "play"));
    assert!(!same_text("play", "plays"));
    assert!(!same_text("plays", "play"));
    assert!(!same_text("play", "Play"));
    assert!(!same_text("", "a"));
}

#[test]
fn split_text_cuts_at_every_separator() {
    assert_eq!(split_text("a=1&b=2", '&'), vec!["a=1", "b=2"]);
    assert_eq!(split_text("", '&'), vec![""]);
    assert_eq!(split_text("&", '&'), vec!["", ""]);
    assert_eq!(split_text("a&&b&", '&'), vec!["a", "", "b", ""]);
    assert_eq!(split_text("abc", '&'), vec!["abc"]);
    assert_eq!(split_text("\u{e9}&\u{1f600}", '&'), vec!["\u{e9}", "\u{1f600}"]);
}

#[test]
fn joined_and_join_strings() {
    assert_eq!(joined("--profile=", "fast"), "--profile=fast");
    assert_eq!(joined("", ""), "");
    let none: Vec<String> = Vec::new();
    assert_eq!(join_strings(&none, ","), "");
    assert_eq!(join_strings(&vec!["a".to_string()], ","), "a");
    assert_eq!(
        join_strings(&vec!["a".to_string(), "".to_string(), "c".to_string()], ", "),
        "a, , c"
    );
}

#[test]
fn single_backslashes_halves_pairs() {
    assert_eq!(single_backslashes("C:\\\\mpv\\\\mpv.exe"), "C:\\mpv\\mpv.exe");
    assert_eq!(single_backslashes("a\\b"), "a\\b");
    assert_eq!(single_backslashes("\\\\\\"), "\\\\");
    assert_eq!(single_backslashes("\\\\\\\\"), "\\\\");
    assert_eq!(single_backslashes(""), "");
    assert_eq!(single_backslashes("/usr/bin/mpv"), "/usr/bin/mpv");
    assert_eq!(
        single_backslashes("C:\\\\mpv\\\\mpv.exe"),
        "C:\\\\mpv\\\\mpv.exe".replace("\\\\", "\\")
    );
}

#[test]
fn decimal_writes_numbers() {
    assert_eq!(decimal(0), "0");
    assert_eq!(decimal(7), "7");
    assert_eq!(decimal(10), "10");
    assert_eq!(decimal(2160), "2160");
    assert_eq!(decimal(-5), "-5");
    assert_eq!(decimal(i32::MAX), "2147483647");
    assert_eq!(decimal(i32::MIN), "-2147483648");
    for n in [1, 9, 11, 99, 100, 101, 1234567890, -1234567890, 305, -40] {
        assert_eq!(decimal(n), n.to_string());
    }
}
