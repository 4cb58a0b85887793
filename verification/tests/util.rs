use win_api::error::MigErrorKind;
use win_api::util::{clip, to_string, to_string_list, to_wide_cstring};

fn wide(text: &str) -> Vec<u16> {
    text.encode_utf16().collect()
}

#[test]
fn to_string_stops_at_the_first_zero() {
    assert_eq!(to_string(&[72, 105, 0]).unwrap(), "Hi");
    assert_eq!(to_string(&[72, 105, 0, 33, 0]).unwrap(), "Hi");
}

#[test]
fn to_string_of_a_lone_terminator_is_empty() {
    assert_eq!(to_string(&[0]).unwrap(), "");
    assert_eq!(to_string(&[0, 65, 0]).unwrap(), "");
}

#[test]
fn to_string_refuses_a_buffer_without_terminator() {
    let err = to_string(&[72, 105]).unwrap_err();
    assert_eq!(err.kind(), MigErrorKind::InvParam);
    assert_eq!(err.remark(), "");
    assert_eq!(err.status(), None);
    assert_eq!(err.os_error(), None);
}

#[test]
fn to_string_refuses_an_empty_buffer() {
    let err = to_string(&[]).unwrap_err();
    assert_eq!(err.kind(), MigErrorKind::InvParam);
}

#[test]
fn to_string_decodes_surrogate_pairs() {
    assert_eq!(to_string(&[0xD83D, 0xDE00, 0]).unwrap(), "\u{1F600}");
}

#[test]
fn to_string_replaces_unpaired_surrogates() {
    assert_eq!(to_string(&[0x41, 0xD800, 0x42, 0]).unwrap(), "A\u{FFFD}B");
    assert_eq!(to_string(&[0xDC00, 0]).unwrap(), "\u{FFFD}");
}

#[test]
fn to_string_list_splits_at_zeros() {
    let mut buf = wide("ab");
    buf.push(0);
    buf.extend(wide("cd"));
    buf.push(0);
    buf.push(0);
    assert_eq!(to_string_list(&buf).unwrap(), vec!["ab".to_string(), "cd".to_string()]);
}

#[test]
fn to_string_list_ends_at_the_first_empty_string() {
    let mut buf = wide("one");
    buf.push(0);
    buf.push(0);
    buf.extend(wide("two"));
    buf.push(0);
    assert_eq!(to_string_list(&buf).unwrap(), vec!["one".to_string()]);
}

#[test]
fn to_string_list_drops_an_unterminated_tail() {
    let mut buf = wide("ab");
    buf.push(0);
    buf.extend(wide("cd"));
    assert_eq!(to_string_list(&buf).unwrap(), vec!["ab".to_string()]);
    assert_eq!(to_string_list(&wide("abc")).unwrap(), Vec::<String>::new());
}

#[test]
fn to_string_list_of_nothing_is_empty() {
    assert_eq!(to_string_list(&[]).unwrap(), Vec::<String>::new());
    assert_eq!(to_string_list(&[0]).unwrap(), Vec::<String>::new());
    assert_eq!(to_string_list(&[0, 65, 0]).unwrap(), Vec::<String>::new());
}

#[test]
fn to_string_list_without_final_empty_string() {
    let mut buf = wide("x");
    buf.push(0);
    buf.extend(wide("yz"));
    buf.push(0);
    assert_eq!(to_string_list(&buf).unwrap(), vec!["x".to_string(), "yz".to_string()]);
}

#[test]
fn to_string_list_decodes_each_string() {
    let buf = [0xD83D, 0xDE00, 0, 0xD800, 0, 0];
    assert_eq!(
        to_string_list(&buf).unwrap(),
        vec!["\u{1F600}".to_string(), "\u{FFFD}".to_string()]
    );
}

#[test]
fn clip_cuts_both_ends() {
    assert_eq!(clip("\\\\.\\PhysicalDrive0", Some("\\\\.\\"), Some("0")), "PhysicalDrive");
    assert_eq!(clip("abcabc", Some("ab"), Some("bc")), "ca");
}

#[test]
fn clip_without_patterns_keeps_the_text() {
    assert_eq!(clip("text", None, None), "text");
    assert_eq!(clip("", None, None), "");
}

#[test]
fn clip_ignores_empty_patterns() {
    assert_eq!(clip("text", Some(""), Some("")), "text");
}

#[test]
fn clip_keeps_what_does_not_match() {
    assert_eq!(clip("text", Some("ex"), Some("ex")), "text");
    assert_eq!(clip("text", Some("texts"), Some("atext")), "text");
}

#[test]
fn clip_cuts_one_end_only() {
    assert_eq!(clip("prefix-body", Some("prefix-"), None), "body");
    assert_eq!(clip("body-suffix", None, Some("-suffix")), "body");
}

#[test]
fn clip_cuts_each_pattern_once() {
    assert_eq!(clip("aaaa", Some("a"), Some("a")), "aa");
}

#[test]
fn clip_cuts_the_end_of_what_the_start_left() {
    assert_eq!(clip("a", Some("a"), Some("a")), "");
    assert_eq!(clip("aba", Some("ab"), Some("ba")), "a");
    assert_eq!(clip("whole", Some("whole"), None), "");
}

#[test]
fn clip_counts_characters_not_bytes() {
    assert_eq!(clip("\u{e9}\u{e9}x", Some("\u{e9}"), None), "\u{e9}x");
    assert_eq!(clip("x\u{1F600}\u{e9}", Some("x"), Some("\u{e9}")), "\u{1F600}");
}

#[test]
fn to_wide_cstring_appends_a_zero() {
    assert_eq!(to_wide_cstring("WQL"), vec![87, 81, 76, 0]);
    assert_eq!(to_wide_cstring(""), vec![0]);
}

#[test]
fn to_wide_cstring_encodes_beyond_the_basic_plane() {
    assert_eq!(to_wide_cstring("\u{1F600}"), vec![0xD83D, 0xDE00, 0]);
}

#[test]
fn wide_strings_convert_back() {
    for text in ["ROOT\\CIMV2", "SELECT * FROM Win32_DiskDrive", "\u{e9}t\u{e9} \u{1F600}", ""] {
        assert_eq!(to_string(&to_wide_cstring(text)).unwrap(), text);
    }
}
