use mesh_llm::attrs::{AttrMap, AttrValue};
use mesh_llm::json::Json;
use mesh_llm::names::NameMap;
use mesh_llm::number::{decimal_text, parse_unsigned, signed_decimal_text};
use mesh_llm::order::text_precedes;
use mesh_llm::scan::{
    contains, find_char, find_chars, is_blank, join, lines, replace, split, split_words,
    stands_at, starts_with, strip_prefix, strip_suffix, trim,
};
use mesh_llm::text::{chars_of, same_text, string_between, string_of, white_space};
use mesh_llm::text_set::TextSet;

#[test]
fn white_space_is_that_of_the_language() {
    for code in 0..=0x10ffffu32 {
        if let Some(c) = char::from_u32(code) {
            assert_eq!(white_space(c), c.is_whitespace(), "{code:x}");
        }
    }
}

#[test]
fn texts_are_taken_apart_and_put_together() {
    let chars = chars_of("aé×z");
    assert_eq!(chars, vec!['a', 'é', '×', 'z']);
    assert_eq!(string_of(&chars), "aé×z");
    assert_eq!(string_between(&chars, 1, 3), "é×");
    assert_eq!(mesh_llm::text::concat("a".to_string(), "é"), "aé");
    assert!(same_text("aé", "aé"));
    assert!(!same_text("a", "aé"));
}

const SAMPLES: [&str; 12] = [
    "",
    " ",
    "a",
    "a b",
    "  a  b\t",
    "a\nb\r\nc",
    "\n",
    "a\n\nb\n",
    "aaaa",
    "é×é",
    "\u{2003}x\u{a0}",
    "one two  three\r",
];

#[test]
fn scanning_agrees_with_the_standard_library() {
    for text in SAMPLES {
        assert_eq!(trim(text), text.trim());
        assert_eq!(is_blank(text), text.trim().is_empty());
        assert_eq!(lines(text), text.lines().collect::<Vec<_>>());
        assert_eq!(split_words(text), text.split_whitespace().collect::<Vec<_>>());
        for pattern in ["a", "aa", "\n", "é", " b", "zz", "\r\n"] {
            assert_eq!(contains(text, pattern), text.contains(pattern));
            assert_eq!(starts_with(text, pattern), text.starts_with(pattern));
            assert_eq!(strip_prefix(text, pattern).as_deref(), text.strip_prefix(pattern));
            assert_eq!(strip_suffix(text, pattern).as_deref(), text.strip_suffix(pattern));
            assert_eq!(replace(text, pattern, "<>"), text.replace(pattern, "<>"));
        }
        for c in ['a', ' ', '\n', 'é'] {
            assert_eq!(split(text, c), text.split(c).collect::<Vec<_>>());
        }
        for other in SAMPLES {
            assert_eq!(text_precedes(text, other), text < other);
        }
    }
    assert_eq!(join(&vec!["a".to_string(), "b".to_string()], ", "), "a, b");
    assert_eq!(join(&vec![], ", "), "");
}

#[test]
fn patterns_are_found_where_they_first_stand() {
    let chars = chars_of("abcabc");
    assert_eq!(find_char(&chars, 'c', 0), 2);
    assert_eq!(find_char(&chars, 'c', 3), 5);
    assert_eq!(find_char(&chars, 'x', 1), 6);
    assert_eq!(find_chars(&chars, &['b', 'c']), Some(1));
    assert_eq!(find_chars(&chars, &['c', 'b']), None);
    assert!(stands_at(&chars, &['c', 'a'], 2));
    assert!(!stands_at(&chars, &['c', 'a'], 5));
}

#[test]
fn numbers_are_written_and_read() {
    for value in [0, 1, 9, 10, 105, 65535, u64::MAX] {
        assert_eq!(decimal_text(value), value.to_string());
        assert_eq!(parse_unsigned(&value.to_string(), u64::MAX), Some(value));
    }
    for value in [0, -1, 42, i64::MAX, i64::MIN] {
        assert_eq!(signed_decimal_text(value), value.to_string());
    }
    for text in ["", "+", "-1", "1x", " 1", "+7", "007", "65536", "18446744073709551616"] {
        assert_eq!(parse_unsigned(text, u16::MAX as u64), text.parse::<u16>().ok().map(u64::from));
        assert_eq!(parse_unsigned(text, u64::MAX), text.parse::<u64>().ok());
    }
}

#[test]
fn names_have_one_value_each() {
    let mut map: NameMap<u8> = NameMap::new();
    map.insert("b", 1);
    map.insert("a", 2);
    map.insert("b", 3);
    assert_eq!(map.get("a"), Some(&2));
    assert_eq!(map.get("b"), Some(&3));
    assert_eq!(map.get("c"), None);
}

#[test]
fn attributes_have_one_value_each() {
    let mut map: AttrMap<f64> = AttrMap::new();
    map.insert_bool("b", true);
    map.insert_count("c", 3);
    map.insert_number("d", 4);
    map.insert_text("a", "x");
    map.insert_measure("e", 0.5);
    map.insert("b", AttrValue::Signed(-1));
    let names: Vec<&str> = map.entries().iter().map(|(name, _)| name.as_str()).collect();
    assert_eq!(names, vec!["b", "c", "d", "a", "e"]);
    assert!(matches!(map.get("b"), Some(AttrValue::Signed(-1))));
    assert!(matches!(map.get("e"), Some(AttrValue::Measure(value)) if *value == 0.5));
    assert!(map.get("f").is_none());
}

#[test]
fn sets_are_sorted() {
    let mut set = TextSet::new();
    assert!(set.is_empty());
    assert!(set.insert("b"));
    assert!(set.insert("a"));
    assert!(!set.insert("b"));
    assert!(set.contains("a") && !set.contains("c"));
    assert_eq!(set.sorted(), &vec!["a", "b"]);
    let mut other = TextSet::new();
    other.insert("b");
    other.insert("c");
    assert_eq!(set.difference(&other), vec!["a"]);
    assert_eq!(other.difference(&set), vec!["c"]);
}

#[test]
fn members_are_read_by_kind() {
    let document = Json::Object(vec![
        ("flag".to_string(), Json::Bool(true)),
        ("count".to_string(), Json::Unsigned(7)),
        ("debt".to_string(), Json::Negative(-7)),
        ("part".to_string(), Json::Fractional("0.5".to_string())),
        ("name".to_string(), Json::Str("x".to_string())),
        ("list".to_string(), Json::Array(vec![Json::Null])),
        ("inner".to_string(), Json::Object(vec![])),
    ]);
    assert_eq!(document.get_bool("flag"), Some(true));
    assert_eq!(document.get_unsigned("count"), Some(7));
    assert_eq!(document.get_unsigned("debt"), None);
    assert_eq!(document.get_unsigned("part"), None);
    assert_eq!(document.get_text("name").map(String::as_str), Some("x"));
    assert!(matches!(document.get("list"), Some(Json::Array(list)) if list.len() == 1));
    assert!(document.get_object("inner").is_some());
    assert!(document.get_object("name").is_none());
    assert!(document.get("missing").is_none());
    assert!(Json::Null.get("flag").is_none());
}
