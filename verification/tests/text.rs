//! Tests of the text utilities: parsing, formatting and path handling.

use oldplay::text::{
    ext_of_name, i64_to_string, i64_to_string_pad2, parse_i32, parse_i64, parse_seconds,
    path_segments, rev_segments, stem_of_name, str_eq, str_eq_ci, starts_with, u64_to_string,
};

#[test]
fn parses_plain_numbers() {
    assert_eq!(parse_i64("123"), Some(123));
    assert_eq!(parse_i64("-45"), Some(-45));
    assert_eq!(parse_i64("+7"), Some(7));
    assert_eq!(parse_i64("0"), Some(0));
    assert_eq!(parse_i64(""), None);
    assert_eq!(parse_i64("12a"), None);
    assert_eq!(parse_i64("-"), None);
    assert_eq!(parse_i64("99999999999999999999"), None);
}

#[test]
fn parses_i32_range() {
    assert_eq!(parse_i32("2147483647"), Some(i32::MAX));
    assert_eq!(parse_i32("2147483648"), None);
    assert_eq!(parse_i32("-12"), Some(-12));
}

#[test]
fn parses_durations() {
    assert_eq!(parse_seconds("185"), Some(185));
    assert_eq!(parse_seconds("12.9"), Some(12));
    assert_eq!(parse_seconds("12."), Some(12));
    assert_eq!(parse_seconds("-3.5"), Some(-3));
    assert_eq!(parse_seconds("."), None);
    assert_eq!(parse_seconds("12.x"), None);
}

#[test]
fn formats_numbers() {
    assert_eq!(u64_to_string(0), "0");
    assert_eq!(u64_to_string(1024), "1024");
    assert_eq!(i64_to_string(-45), "-45");
    assert_eq!(i64_to_string_pad2(7), "07");
    assert_eq!(i64_to_string_pad2(59), "59");
    assert_eq!(i64_to_string_pad2(-5), "-5");
    assert_eq!(i64_to_string_pad2(100), "100");
}

#[test]
fn splits_paths() {
    let segs = path_segments("/home/user/music/song.mod");
    assert_eq!(segs, vec!["home", "user", "music", "song.mod"]);
    let rev = rev_segments("/home/user/music/song.mod");
    assert_eq!(rev[0], "song.mod");
    assert_eq!(rev[3], "home");
    assert_eq!(path_segments("///"), Vec::<String>::new());
    assert_eq!(path_segments("plain"), vec!["plain"]);
}

#[test]
fn stems_and_extensions() {
    assert_eq!(stem_of_name("song.mod"), "song");
    assert_eq!(stem_of_name("archive.tar.gz"), "archive.tar");
    assert_eq!(stem_of_name(".bashrc"), ".bashrc");
    assert_eq!(stem_of_name("plain"), "plain");
    assert_eq!(ext_of_name("song.mod"), Some("mod".to_string()));
    assert_eq!(ext_of_name(".bashrc"), None);
    assert_eq!(ext_of_name("plain"), None);
}

#[test]
fn compares_strings() {
    assert!(str_eq("hello", "hello"));
    assert!(!str_eq("hello", "hellO"));
    assert!(str_eq_ci("hello", "HELLO"));
    assert!(!str_eq_ci("hello", "hells"));
    assert!(starts_with("coop-Firefox", "coop-"));
    assert!(!starts_with("co", "coop-"));
}
