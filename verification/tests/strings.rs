use gantry_crane::strings::{chars_of, push_char, string_of_range, trim_bounds, trim_start_matching};

#[test]
fn trim_start_matching_removes_only_leading_characters() {
    assert_eq!(trim_start_matching("//a/b/", '/'), "a/b/");
    assert_eq!(trim_start_matching("a", '/'), "a");
    assert_eq!(trim_start_matching("///", '/'), "");
    assert_eq!(trim_start_matching("", '/'), "");
}

#[test]
fn chars_and_ranges_round_trip() {
    let chars = chars_of("__ab_c__");
    assert_eq!(chars.len(), 8);
    let (lo, hi) = trim_bounds(&chars, '_');
    assert_eq!((lo, hi), (2, 6));
    assert_eq!(string_of_range(&chars, lo, hi), "ab_c");
    let all = chars_of("____");
    let (lo, hi) = trim_bounds(&all, '_');
    assert_eq!(lo, hi);
}

#[test]
fn push_char_appends() {
    let mut s = "ab".to_owned();
    push_char(&mut s, 'ü');
    assert_eq!(s, "abü");
}
