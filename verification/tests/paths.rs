use std::path::Path;

use engine_test::decimal::{parse_u64, u64_to_string};
use engine_test::path::{
    get_id_and_suffix_from_path, join, tablet_path, tablets_path, tombstone_path, PathText,
    TOMBSTONE_MARK,
};

fn exact(path: &str) -> PathText {
    PathText::Exact(path.to_string())
}

fn ids(path: &str) -> (u64, u64) {
    get_id_and_suffix_from_path(&exact(path))
}

fn parse(text: &str) -> Option<u64> {
    let chars: Vec<char> = text.chars().collect();
    parse_u64(&chars, 0, chars.len())
}

const NUMBERS: [u64; 12] = [
    0,
    1,
    9,
    10,
    11,
    99,
    100,
    1234567890,
    4294967295,
    4294967296,
    18446744073709551614,
    18446744073709551615,
];

const PATHS: [&str; 34] = [
    "",
    "/",
    "//",
    ".",
    "..",
    "...",
    "./.",
    "/.",
    "/..",
    "a",
    "a/",
    "a//",
    "a/.",
    "a/./",
    "a/./.",
    "a/..",
    "a/../",
    "a/../b",
    "./a",
    "/a",
    "/a/b",
    "a//b",
    "a/.b",
    "a/b.",
    "a/..b",
    "a/b..",
    "7_9",
    "x/7_9/",
    "x/7_9/.",
    "x/7_9/..",
    "\u{e9}/7_9",
    "x/\u{e9}\u{4e2d}_9",
    "x/3_4_5",
    "x/3__5",
];

#[test]
fn decimal_text_is_that_of_the_standard_library() {
    for n in NUMBERS {
        assert_eq!(u64_to_string(n), n.to_string());
    }
    assert_eq!(u64_to_string(18446744073709551615), "18446744073709551615");
}

#[test]
fn reading_decimal_text_gives_the_number_back() {
    for n in NUMBERS {
        assert_eq!(parse(&u64_to_string(n)), Some(n));
    }
}

#[test]
fn numbers_are_read_as_the_standard_library_reads_them() {
    let texts = [
        "",
        "+",
        "-",
        "++1",
        "+1",
        "-1",
        "-0",
        "+0",
        "0",
        "00",
        "007",
        " 1",
        "1 ",
        "1a",
        "a1",
        "1_0",
        "18446744073709551615",
        "18446744073709551616",
        "+18446744073709551615",
        "00000000000000000000000000001",
        "99999999999999999999",
        "184467440737095516150",
        "\u{0661}",
        "/",
        ":",
    ];
    for text in texts {
        assert_eq!(parse(text), text.parse::<u64>().ok(), "{:?}", text);
    }
    assert_eq!(parse("+18446744073709551615"), Some(u64::MAX));
    assert_eq!(parse("18446744073709551616"), None);
}

#[test]
fn part_of_the_characters_is_read() {
    let chars: Vec<char> = "ab12cd".chars().collect();
    assert_eq!(parse_u64(&chars, 2, 4), Some(12));
    assert_eq!(parse_u64(&chars, 2, 5), None);
    assert_eq!(parse_u64(&chars, 3, 3), None);
}

#[test]
fn join_is_that_of_the_standard_library() {
    for base in PATHS {
        for rel in PATHS {
            let expected = Path::new(base).join(rel);
            assert_eq!(join(base, rel), expected.to_str().unwrap(), "{:?} {:?}", base, rel);
        }
    }
    assert_eq!(join("a", "b"), "a/b");
    assert_eq!(join("a/", "b"), "a/b");
    assert_eq!(join("", "b"), "b");
    assert_eq!(join("a", "/b"), "/b");
    assert_eq!(join("a", ""), "a/");
}

/// The reading rule, put together from the standard library.
fn expected_ids(path: &str) -> (u64, u64) {
    let (mut id, mut suffix) = (0, 1);
    if let Some(s) = Path::new(path).file_name().map(|s| s.to_string_lossy()) {
        let mut split = s.split('_');
        id = split.next().and_then(|s| s.parse().ok()).unwrap_or(0);
        suffix = split.next().and_then(|s| s.parse().ok()).unwrap_or(1);
    }
    (id, suffix)
}

#[test]
fn ids_follow_the_file_name_of_the_standard_library() {
    for path in PATHS {
        assert_eq!(ids(path), expected_ids(path), "{:?}", path);
    }
    for base in PATHS {
        for name in ["1_2", "1", "_2", "1_", "_", "x_2", "1_x", "+1_+2", "1_2_3", "-1_-2"] {
            let path = join(base, name);
            assert_eq!(ids(&path), expected_ids(&path), "{:?}", path);
        }
    }
}

#[test]
fn ids_are_read_from_the_first_two_pieces() {
    assert_eq!(ids("/data/tablets/12_34"), (12, 34));
    assert_eq!(ids("/data/tablets/12_34/"), (12, 34));
    assert_eq!(ids("12_34_56"), (12, 34));
    assert_eq!(ids("+12_+34"), (12, 34));
}

#[test]
fn missing_ids_have_defaults() {
    assert_eq!(ids(""), (0, 1));
    assert_eq!(ids("/"), (0, 1));
    assert_eq!(ids(".."), (0, 1));
    assert_eq!(ids("a/.."), (0, 1));
    assert_eq!(ids("db"), (0, 1));
    assert_eq!(ids("7"), (7, 1));
    assert_eq!(ids("7_"), (7, 1));
    assert_eq!(ids("7_x"), (7, 1));
    assert_eq!(ids("_9"), (0, 9));
    assert_eq!(ids("x_9"), (0, 9));
    assert_eq!(ids("18446744073709551616_9"), (0, 9));
}

#[test]
fn a_path_that_is_not_utf8_is_read_with_replacements() {
    let path = PathText::Lossy("d\u{fffd}/5_6".to_string());
    assert_eq!(get_id_and_suffix_from_path(&path), (5, 6));
    assert_eq!(path.to_str_or_default(), "");
    assert_eq!(exact("d/5_6").to_str_or_default(), "d/5_6");
}

#[test]
fn tablet_paths_under_a_root() {
    assert_eq!(tablets_path("/data"), "/data/tablets");
    assert_eq!(tablet_path("/data", 3, 10), "/data/tablets/3_10");
    assert_eq!(tablet_path("/data/", 3, 10), "/data/tablets/3_10");
    assert_eq!(tablet_path("", 3, 10), "tablets/3_10");
    assert_eq!(tombstone_path("/data", 3, 10), "/data/tablets/3_10/TOMBSTONE_TABLET");
    assert_eq!(TOMBSTONE_MARK, "TOMBSTONE_TABLET");
}

#[test]
fn a_tablet_path_is_read_back() {
    for root in ["", "/", "/data", "/data/", ".", "..", "1_2", "a_b/3_4"] {
        for id in NUMBERS {
            for suffix in [0, 1, 10, u64::MAX] {
                assert_eq!(ids(&tablet_path(root, id, suffix)), (id, suffix));
            }
        }
    }
}

#[test]
fn a_tablet_path_lies_in_the_directory_of_tablets() {
    for root in ["", "/", "/data", "/data/"] {
        assert_eq!(tablet_path(root, 8, 9), join(&tablets_path(root), "8_9"));
        let tombstone = tombstone_path(root, 8, 9);
        assert_eq!(tombstone, join(&tablet_path(root, 8, 9), TOMBSTONE_MARK));
        assert_eq!(Path::new(&tombstone).file_name().unwrap(), TOMBSTONE_MARK);
    }
}

#[test]
fn tablets_do_not_share_a_directory() {
    assert_ne!(tablet_path("/d", 1, 11), tablet_path("/d", 11, 1));
    assert_ne!(tablet_path("/d", 1, 23), tablet_path("/d", 12, 3));
}
