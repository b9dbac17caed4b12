use flotswarm::text::{
    decimal_text, is_white_space, lines, parse_number, replace, same_text, starts_with, strip_end,
    strip_last, strip_prefix, trim, trim_end,
};
use flotswarm::text_map::{rank, Rank, TextMap};
use std::collections::BTreeMap;

const SAMPLES: [&str; 14] = [
    "",
    " ",
    "a",
    "abc",
    "  two words \n",
    "\u{a0}\u{3000}x\u{85}",
    "line\r\nline\n\nlast",
    "line\r\nline\n\nlast\n",
    "\r\n\r",
    "\u{e9}t\u{e9}",
    "\u{1f680}\u{1f680}",
    "${value}${value}-${val}${value",
    "///",
    "a/b//",
];

#[test]
fn white_space_is_that_of_unicode() {
    for code in 0..=0x10ffff {
        if let Some(c) = char::from_u32(code) {
            assert_eq!(is_white_space(c), c.is_whitespace(), "{code:x}");
        }
    }
}

#[test]
fn trimming() {
    for s in SAMPLES {
        assert_eq!(trim(s), s.trim(), "{s:?}");
        assert_eq!(trim_end(s), s.trim_end(), "{s:?}");
        assert_eq!(strip_end(s, '/'), s.trim_end_matches('/'), "{s:?}");
    }
}

#[test]
fn prefixes_and_suffixes() {
    for s in SAMPLES {
        for p in SAMPLES {
            assert_eq!(strip_prefix(s, p).as_deref(), s.strip_prefix(p), "{s:?} {p:?}");
            assert_eq!(same_text(s, p), s == p);
        }
        for c in ['a', '/', '\n', '\u{e9}', '\u{1f680}'] {
            assert_eq!(strip_last(s, c).as_deref(), s.strip_suffix(c), "{s:?} {c:?}");
            assert_eq!(starts_with(s, c), s.starts_with(c), "{s:?} {c:?}");
        }
    }
}

#[test]
fn lines_end_with_a_line_feed() {
    for s in SAMPLES {
        let expected: Vec<&str> = s.lines().collect();
        assert_eq!(lines(s), expected, "{s:?}");
    }
}

#[test]
fn replacing() {
    for s in SAMPLES {
        for part in ["a", "${value}", "//", "li", "\n", "\u{1f680}"] {
            for by in ["", "x", "${value}", part] {
                assert_eq!(replace(s, part, by), s.replace(part, by), "{s:?} {part:?} {by:?}");
            }
        }
    }
    assert_eq!(replace("aaaa", "aaa", "b"), "ba");
}

#[test]
fn numbers() {
    for s in [
        "0", "7", "+7", "007", "", "+", "-1", "-0", "1 ", " 1", "1_0", "0x1", "++1", "1+", "a",
        "18446744073709551615", "18446744073709551616", "99999999999999999999999",
        "000000000000000000000000000001", "\u{0661}",
    ] {
        assert_eq!(parse_number(s, u64::MAX), s.parse::<u64>().ok(), "{s:?}");
        assert_eq!(
            parse_number(s, 255),
            s.parse::<u8>().ok().map(|n| n as u64),
            "{s:?}"
        );
    }
    for n in [0, 9, 10, 99, 100, 1234567890, u64::MAX] {
        assert_eq!(decimal_text(n), n.to_string());
        assert_eq!(parse_number(&decimal_text(n), u64::MAX), Some(n));
    }
}

#[test]
fn texts_are_ranked_as_they_are_ordered() {
    for a in SAMPLES {
        for b in SAMPLES {
            let same = match rank(a, b) {
                Rank::Before => a < b,
                Rank::Same => a == b,
                Rank::After => a > b,
            };
            assert!(same, "{a:?} {b:?}");
        }
    }
    // Ordered by code point, as by the bytes of UTF-8.
    assert!(matches!(rank("\u{ffff}", "\u{10000}"), Rank::Before));
}

#[test]
fn a_text_map_is_an_ordered_map() {
    let mut map: TextMap<usize> = TextMap::new();
    let mut expected: BTreeMap<String, usize> = BTreeMap::new();
    assert!(map.is_empty());
    for (i, s) in SAMPLES.iter().chain(SAMPLES.iter().rev()).enumerate() {
        assert_eq!(map.contains_key(s), expected.contains_key(*s));
        assert_eq!(
            map.insert(s.to_string(), i),
            expected.insert(s.to_string(), i)
        );
        assert_eq!(map.get(s), Some(&i));
        assert_eq!(map.len(), expected.len());
    }
    for (i, (key, value)) in expected.iter().enumerate() {
        assert_eq!(map.key_at(i), key);
        assert_eq!(map.value_at(i), value);
    }
    assert_eq!(map.get("absent"), None);
    assert!(!map.is_empty());
    let copy = map.clone();
    assert_eq!(copy, map);
}
