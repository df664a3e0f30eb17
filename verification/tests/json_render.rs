use lsf_agent::json::{append_json_string, render_report};
use lsf_agent::report::{StatusStorageInfo, StorageInfo};
use lsf_agent::strutil::{append_i32, append_u64};

fn json_string(s: &str) -> String {
    let mut out = String::new();
    append_json_string(&mut out, s);
    out
}

#[test]
fn plain_strings_are_quoted() {
    assert_eq!(json_string(""), "\"\"");
    assert_eq!(json_string("abc"), "\"abc\"");
}

#[test]
fn special_characters_are_escaped() {
    assert_eq!(json_string("a\"b"), "\"a\\\"b\"");
    assert_eq!(json_string("a\\b"), "\"a\\\\b\"");
    assert_eq!(json_string("a\nb\tc\r"), "\"a\\nb\\tc\\r\"");
    assert_eq!(json_string("\u{8}\u{c}"), "\"\\b\\f\"");
    assert_eq!(json_string("\u{1}\u{1f}"), "\"\\u0001\\u001f\"");
    // non-ASCII characters stand as themselves
    assert_eq!(json_string("héllo✓"), "\"héllo✓\"");
}

#[test]
fn escaping_matches_serde_json() {
    let samples = [
        "plain",
        "with \"quotes\" and \\backslash\\",
        "ctl:\u{0}\u{1}\u{2}\u{8}\u{9}\u{a}\u{b}\u{c}\u{d}\u{e}\u{1f}",
        "unicode: αβγ 日本語 \u{7f}",
        "",
    ];
    for s in samples {
        let expected = serde_json::to_string(s).unwrap();
        assert_eq!(json_string(s), expected);
    }
}

#[test]
fn integer_rendering() {
    let mut s = String::new();
    append_i32(&mut s, 0);
    assert_eq!(s, "0");
    let mut s = String::new();
    append_i32(&mut s, -42);
    assert_eq!(s, "-42");
    let mut s = String::new();
    append_i32(&mut s, i32::MIN);
    assert_eq!(s, "-2147483648");
    let mut s = String::new();
    append_i32(&mut s, i32::MAX);
    assert_eq!(s, "2147483647");
    let mut s = String::new();
    append_u64(&mut s, u64::MAX);
    assert_eq!(s, format!("{}", u64::MAX));
}

#[test]
fn empty_report_renders_as_empty_array() {
    let records: Vec<StatusStorageInfo> = Vec::new();
    assert_eq!(render_report(&records), "[]");
}

#[test]
fn absent_optional_fields_are_omitted() {
    let rec = StatusStorageInfo::new("n".to_string(), 0, None, None, None);
    assert_eq!(render_report(&vec![rec]), "[{\"name\":\"n\",\"status\":0}]");
}

#[test]
fn storage_field_renders_when_present() {
    let rec = StatusStorageInfo::new(
        "n".to_string(),
        0,
        Some(StorageInfo::new(17, 256)),
        Some("g".to_string()),
        None,
    );
    assert_eq!(
        render_report(&vec![rec]),
        "[{\"name\":\"n\",\"status\":0,\"storage\":{\"used\":17,\"total\":256},\"criticalGroupName\":\"g\"}]"
    );
}

#[test]
fn record_rendering_matches_serde_json_escaping() {
    let rec = StatusStorageInfo::new(
        "weird \"host\"\n".to_string(),
        2,
        None,
        Some("grp\\1".to_string()),
        Some("Status code: 1 (UNKNOWN)".to_string()),
    );
    let ours = render_report(&vec![rec]);
    let expected = format!(
        "[{{\"name\":{},\"status\":2,\"criticalGroupName\":{},\"remarks\":{}}}]",
        serde_json::to_string("weird \"host\"\n").unwrap(),
        serde_json::to_string("grp\\1").unwrap(),
        serde_json::to_string("Status code: 1 (UNKNOWN)").unwrap(),
    );
    assert_eq!(ours, expected);
}
