use parley::clock::{parse_moment, seconds_from, Moment, Stamp};
use parley::numbers::{push_signed, read_u32, to_decimal, to_tenths};
use parley::paths::{extension, file_name, join_path, split_on};
use parley::sorting::text_not_after;
use parley::text::{is_blank, trim, trim_set, trimmed_or_none, CharSet};
use parley::text_map::TextMap;
use parley::words::{contains, join, same_ignoring_ascii_case, split_words, squeeze, starts_with, strip_prefix};

#[test]
fn texts_are_trimmed_as_std_does() {
    for s in ["", " a ", "\u{a0}x\u{3000}", "\t\n", "a b", "\u{200b}z"] {
        assert_eq!(trim(s), s.trim());
        assert_eq!(is_blank(s), s.trim().is_empty());
        assert_eq!(split_words(s), s.split_whitespace().collect::<Vec<_>>());
        assert_eq!(trim(&trim(s)), trim(s));
    }
    assert_eq!(trim_set("''a'b''", CharSet::Only('\'')), "a'b");
    assert_eq!(trimmed_or_none("  "), None);
}

#[test]
fn words_come_back_from_a_joined_text() {
    let words = vec!["a".to_string(), "bc".to_string(), "d".to_string()];
    assert_eq!(split_words(&join(&words, " ")), words);
    assert_eq!(squeeze("  a \n b  "), "a b");
    assert_eq!(squeeze(&squeeze(" x  y ")), squeeze(" x  y "));
}

#[test]
fn searching_agrees_with_std() {
    for (hay, needle) in [("abc", "bc"), ("abc", ""), ("", "a"), ("aab", "ab"), ("añb", "ñ")] {
        assert_eq!(contains(hay, needle), hay.contains(needle));
        assert_eq!(starts_with(hay, needle), hay.starts_with(needle));
        assert_eq!(strip_prefix(hay, needle).as_deref(), hay.strip_prefix(needle));
    }
    assert!(same_ignoring_ascii_case("AUTO", "auto"));
    assert!(!same_ignoring_ascii_case("É", "é"));
}

#[test]
fn numbers_are_written_and_read() {
    assert_eq!(to_decimal(u64::MAX), u64::MAX.to_string());
    let mut out = String::new();
    push_signed(&mut out, i64::MIN);
    assert_eq!(out, i64::MIN.to_string());
    for s in ["0", "+7", "007", "4294967295", "4294967296", "", "+", "-1", "1a"] {
        assert_eq!(read_u32(s), s.parse::<u32>().ok());
    }
    assert_eq!(to_tenths(1536, 1024), 15);
    assert_eq!(to_tenths(1280, 1024), 12);
}

#[test]
fn paths_are_taken_apart_as_std_does() {
    for p in ["/a/b.txt", "b", "/", "", "..", "/a/..", "a/./", "/a/.hidden", "x.tar.gz", "a//b."] {
        let path = std::path::Path::new(p);
        assert_eq!(file_name(p).as_deref(), path.file_name().map(|n| n.to_str().unwrap()));
        assert_eq!(extension(p).as_deref(), path.extension().map(|n| n.to_str().unwrap()));
    }
    assert_eq!(join_path("/a", "b"), "/a/b");
    assert_eq!(join_path("/a/", "b"), "/a/b");
    assert_eq!(split_on("a,,b", ','), vec!["a", "", "b"]);
}

#[test]
fn texts_are_ordered_as_std_does() {
    for (a, b) in [("", ""), ("", "a"), ("b", "a"), ("a", "ab"), ("Z", "a"), ("é", "z")] {
        assert_eq!(text_not_after(a, b), a <= b);
    }
}

#[test]
fn maps_keep_one_value_for_a_key() {
    let mut map: TextMap<u8> = TextMap::new();
    assert!(map.is_empty());
    map.insert("a", 1);
    map.insert("b", 2);
    map.insert("a", 3);
    assert_eq!(map.get("a"), Some(&3));
    assert_eq!(map.keys(), vec!["a", "b"]);
    map.remove("a");
    assert!(!map.contains_key("a"));
    map.clear();
    assert!(map.is_empty());
}

#[test]
fn moments_are_read_and_compared() {
    let a = parse_moment("2026-09-11T14:30:00.5Z").unwrap();
    let b = parse_moment("2026-09-11T16:30:00+02:00").unwrap();
    assert_eq!(seconds_from(&a, &b), 0);
    assert!(a.is_after(&b));
    assert_eq!(parse_moment("yesterday"), None);
    assert!(!Moment { seconds: 0, nanos: 1_500_000_000 }.is_valid());
    assert!(!Stamp { year: 2026, month: 2, day: 29, hour: 0, minute: 0, second: 0 }.is_valid());
    assert!(Stamp { year: 2024, month: 2, day: 29, hour: 0, minute: 0, second: 0 }.is_valid());
}

#[test]
fn days_are_counted_from_the_year_one() {
    assert_eq!(Stamp { year: 1, month: 1, day: 1, hour: 0, minute: 0, second: 0 }.days(), 1);
    assert_eq!(Stamp { year: 1999, month: 9, day: 3, hour: 0, minute: 0, second: 0 }.days(), 730_000);
    assert_eq!(Stamp { year: 0, month: 12, day: 31, hour: 0, minute: 0, second: 0 }.days(), 0);
}
