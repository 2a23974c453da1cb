use barleywine::text::{chars_of, concat_text, decimal_text, join, text_eq};

#[test]
fn decimal_numbers() {
    assert_eq!(decimal_text(0), "0");
    assert_eq!(decimal_text(7), "7");
    assert_eq!(decimal_text(404), "404");
    assert_eq!(decimal_text(65535), "65535");
    assert_eq!(decimal_text(u64::MAX), u64::MAX.to_string());
}

#[test]
fn joining_paths() {
    assert_eq!(join("webroot", "index.html"), "webroot/index.html");
    assert_eq!(join("webroot/", "index.html"), "webroot/index.html");
    assert_eq!(join("", "index.html"), "index.html");
    assert_eq!(concat_text("ab", "cd"), "abcd");
}

#[test]
fn comparing_text() {
    assert!(text_eq("info", "info"));
    assert!(!text_eq("info", "Info"));
    assert!(!text_eq("info", "inf"));
    assert_eq!(chars_of("héllo"), vec!['h', 'é', 'l', 'l', 'o']);
}
