use process_priority_enforcer::process::{get_process_name, strip_trailing_nulls, Process};
use process_priority_enforcer::text::{eq_ignore_ascii_case, is_blank};
use process_priority_enforcer::util::{normalize_path, normalize_path_with};

#[test]
fn normalize_to_backslash() {
    assert_eq!(normalize_path_with("C:/SomeFolder/**/*.exe", '\\'), "C:\\SomeFolder\\**\\*.exe");
    assert_eq!(normalize_path_with("C:\\\\Dir//\\x.exe", '\\'), "C:\\Dir\\x.exe");
}

#[test]
fn normalize_to_slash() {
    assert_eq!(normalize_path_with("a\\\\b//c", '/'), "a/b/c");
    assert_eq!(normalize_path_with("////", '/'), "/");
    assert_eq!(normalize_path_with("", '/'), "");
    assert_eq!(normalize_path_with("**/SomeFile.exe", '/'), "**/SomeFile.exe");
}

#[test]
fn normalize_is_idempotent() {
    for s in ["a\\\\b//c", "C:/x//y\\\\z", "//", "plain"] {
        for sep in ['/', '\\'] {
            let once = normalize_path_with(s, sep);
            assert_eq!(normalize_path_with(&once, sep), once);
        }
    }
}

#[test]
fn normalize_uses_platform_separator() {
    let r = normalize_path("a\\b//c");
    assert!(r == "a/b/c" || r == "a\\b\\c");
    assert_eq!(r, normalize_path_with("a\\b//c", std::path::MAIN_SEPARATOR));
}

#[test]
fn strip_nulls_cuts_at_first_nul() {
    assert_eq!(strip_trailing_nulls(&[104, 105, 0, 0]), &[104, 105]);
    assert_eq!(strip_trailing_nulls(&[104, 0, 105, 0]), &[104]);
    assert_eq!(strip_trailing_nulls(&[104, 105]), &[104, 105]);
    assert_eq!(strip_trailing_nulls(&[0, 1]), &[] as &[u16]);
    assert_eq!(strip_trailing_nulls(&[]), &[] as &[u16]);
}

fn padded(s: &str, len: usize) -> Vec<u16> {
    let mut v: Vec<u16> = s.encode_utf16().collect();
    v.resize(len, 0);
    v
}

#[test]
fn process_name_from_padded_buffer() {
    assert_eq!(get_process_name(&padded("notepad.exe", 260)), "notepad.exe");
    assert_eq!(get_process_name(&padded("😀.exe", 16)), "😀.exe");
    assert_eq!(get_process_name(&[0xD800, 0x61, 0]), "\u{FFFD}a");
    assert_eq!(get_process_name(&[0xDC00, 0xD83D, 0xDE00]), "\u{FFFD}😀");
}

#[test]
fn process_from_snapshot_entry() {
    let p = Process::from_snapshot_entry(42, &padded("svchost.exe", 32));
    assert_eq!(p.id, 42);
    assert_eq!(p.name, "svchost.exe");
}

#[test]
fn ascii_case_insensitive_comparison() {
    assert!(eq_ignore_ascii_case("Hello", "hELLO"));
    assert!(!eq_ignore_ascii_case("Hello", "Hell"));
    assert!(eq_ignore_ascii_case("", ""));
    assert!(!eq_ignore_ascii_case("é", "É"));
}

#[test]
fn blank_text() {
    assert!(is_blank(""));
    assert!(is_blank(" \t\r\n\u{3000}"));
    assert!(!is_blank("  {}  "));
}

#[test]
fn platform_separator_is_the_build_targets() {
    let p = process_priority_enforcer::util::Platform::current();
    assert_eq!(p.path_separator(), std::path::MAIN_SEPARATOR);
}

#[test]
fn either_separator_gives_the_same_pattern() {
    for sep in ['/', '\\'] {
        assert_eq!(normalize_path_with("C:/a\\b//c", sep), normalize_path_with("C:\\a\\b\\\\c", sep));
        assert_eq!(normalize_path_with("C:/a\\b//c", sep), normalize_path_with("C:/a/b//c", sep));
    }
}
