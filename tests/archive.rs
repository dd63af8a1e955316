use proton_downloader::archive::is_safe_entry_path;

#[test]
fn nested_relative_entries_are_safe() {
    assert!(is_safe_entry_path("bin/run"));
    assert!(is_safe_entry_path("lib/x.so"));
    assert!(is_safe_entry_path("a/..b/c"));
    assert!(is_safe_entry_path("./dir/"));
}

#[test]
fn escaping_entries_are_refused() {
    assert!(!is_safe_entry_path("../etc/passwd"));
    assert!(!is_safe_entry_path("a/../../b"));
    assert!(!is_safe_entry_path("a/.."));
    assert!(!is_safe_entry_path(".."));
    assert!(!is_safe_entry_path("/etc/passwd"));
    assert!(!is_safe_entry_path("a\\..\\b"));
    assert!(!is_safe_entry_path(""));
}
