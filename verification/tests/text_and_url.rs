use media_bot::text::{
    chars_all_alphanumeric, chars_all_numeric, chars_eq_str, chars_of, remove_all_chars,
    split_chars, splitn_chars, string_of, trim_chars, utf8_len_of,
};
use media_bot::url::Url;

fn s(v: &[char]) -> String {
    v.iter().collect()
}

#[test]
fn split_keeps_empty_pieces() {
    let parts = split_chars(&chars_of("/a//b/"), '/');
    let parts: Vec<String> = parts.iter().map(|p| s(p)).collect();
    assert_eq!(parts, vec!["", "a", "", "b", ""]);
    let none = split_chars(&chars_of(""), '/');
    assert_eq!(none.len(), 1);
    assert!(none[0].is_empty());
}

#[test]
fn splitn_stops_after_n_pieces() {
    let parts = splitn_chars(&chars_of("https://x.com/u/status/1/photo/2"), 6, '/');
    let parts: Vec<String> = parts.iter().map(|p| s(p)).collect();
    assert_eq!(parts, vec!["https:", "", "x.com", "u", "status", "1/photo/2"]);
    let parts = splitn_chars(&chars_of("a/b"), 6, '/');
    assert_eq!(parts.len(), 2);
}

#[test]
fn trim_removes_both_ends() {
    assert_eq!(s(&trim_chars(&chars_of("//a/b//"), '/')), "a/b");
    assert_eq!(s(&trim_chars(&chars_of("///"), '/')), "");
    assert_eq!(s(&trim_chars(&chars_of("abc"), '/')), "abc");
}

#[test]
fn remove_all_scans_left_to_right() {
    let out = remove_all_chars(&chars_of("<a href=\"x<a href=\"y"), &chars_of("<a href=\""));
    assert_eq!(s(&out), "xy");
    let out = remove_all_chars(&chars_of("aaa"), &chars_of("aa"));
    assert_eq!(s(&out), "a");
}

#[test]
fn utf8_length_counts_bytes() {
    assert_eq!(utf8_len_of(&chars_of("abc")), 3);
    assert_eq!(utf8_len_of(&chars_of("é")), 2);
    assert_eq!(utf8_len_of(&chars_of("€")), 3);
    assert_eq!(utf8_len_of(&chars_of("😀")), 4);
}

#[test]
fn character_classes() {
    assert!(chars_all_numeric(&chars_of("0123456789")));
    assert!(!chars_all_numeric(&chars_of("12a")));
    assert!(chars_all_numeric(&chars_of("")));
    assert!(chars_all_alphanumeric(&chars_of("ZNdpECbDU")));
    assert!(!chars_all_alphanumeric(&chars_of("ab-c")));
}

#[test]
fn text_round_trip_and_equality() {
    let c = chars_of("héllo");
    assert_eq!(c.len(), 5);
    assert_eq!(string_of(&c), "héllo");
    assert!(chars_eq_str(&c, "héllo"));
    assert!(!chars_eq_str(&c, "hello"));
}

#[test]
fn url_parts() {
    let u = Url::parse("https://www.tiktok.com/@user/video/7552558101023526166?is_from_webapp=1").unwrap();
    assert_eq!(u.domain(), Some("www.tiktok.com"));
    assert_eq!(u.path(), "/@user/video/7552558101023526166");
    assert_eq!(u.as_str(), "https://www.tiktok.com/@user/video/7552558101023526166?is_from_webapp=1");
    let segs: Vec<String> = u.path_segments().unwrap().iter().map(|p| s(p)).collect();
    assert_eq!(segs, vec!["@user", "video", "7552558101023526166"]);
    let root = Url::parse("https://example.com").unwrap();
    let segs: Vec<String> = root.path_segments().unwrap().iter().map(|p| s(p)).collect();
    assert_eq!(segs, vec![""]);
}

#[test]
fn url_without_domain_or_base() {
    let ip = Url::parse("https://127.0.0.1/a").unwrap();
    assert_eq!(ip.domain(), None);
    let data = Url::parse("data:text/plain,HelloWorld").unwrap();
    assert!(data.path_segments().is_none());
    let bad = Url::parse("not a url");
    assert_eq!(bad.err().unwrap(), "relative URL without a base");
    let copy = ip.duplicate();
    assert_eq!(copy.as_str(), ip.as_str());
}
