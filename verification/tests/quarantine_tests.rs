use clu::feed::ecosystem::Ecosystem;
use clu::quarantine::{
    archive_extension, audit_log_line, ecosystem_dir_name, entry_dir_name, expired_entries,
    plan_budget_eviction, sanitize_name, DiskEntry,
};

#[test]
fn test_path_sanitization_prevents_traversal() {
    let name = entry_dir_name("../evil-pkg", Some("1.0.0"), "20250101T000000");
    assert!(!name.contains(".."));
    assert!(name.contains("__evil-pkg"));
    assert_eq!(name, "__evil-pkg_1.0.0_20250101T000000");
}

#[test]
fn test_sanitize_name() {
    assert_eq!(sanitize_name("a/b c"), "a_b_c");
    assert_eq!(sanitize_name("...."), "__");
    assert_eq!(sanitize_name("ok-name_1.2"), "ok-name_1.2");
    assert_eq!(entry_dir_name("p", None, "t"), "p_unknown_t");
}

#[test]
fn test_whl_extension() {
    assert_eq!(archive_extension("https://example.com/wheel-pkg-1.0.0-py3-none-any.whl"), ".whl");
    assert_eq!(archive_extension("https://example.com/x.zip"), ".whl");
    assert_eq!(archive_extension("https://example.com/x.tar.gz"), ".tar.gz");
    assert_eq!(ecosystem_dir_name(Ecosystem::Npm), "npm");
}

#[test]
fn test_audit_log_line() {
    assert_eq!(
        audit_log_line("2025-01-01T00:00:00Z", "test-pkg", Ecosystem::PyPI, 12, "INSPECT"),
        "2025-01-01T00:00:00Z test-pkg pypi 12 MEDIUM INSPECT\n"
    );
}

fn e(size: u64, modified: u128) -> DiskEntry {
    DiskEntry { size, modified }
}

#[test]
fn test_budget_eviction_oldest_first() {
    let mb = 1_048_576u64;
    let entries = vec![e(mb, 30), e(mb, 10), e(mb, 20), e(mb, 10)];
    // 4 MiB stored, 2 MiB allowed: evict the two oldest (ties keep listing order).
    assert_eq!(plan_budget_eviction(&entries, 2), vec![1, 3]);
    assert_eq!(plan_budget_eviction(&entries, 4), Vec::<usize>::new());
    assert_eq!(plan_budget_eviction(&entries, 0), Vec::<usize>::new());
    let big = vec![e(5 * mb, 1), e(mb, 2)];
    assert_eq!(plan_budget_eviction(&big, 1), vec![0]);
}

#[test]
fn test_expired_entries() {
    let entries = vec![e(1, 5), e(1, 50), e(1, 9)];
    assert_eq!(expired_entries(&entries, 10, 3), vec![0, 2]);
    assert!(expired_entries(&entries, 10, 0).is_empty());
}

#[test]
fn sanitized_names_are_single_components() {
    for raw in ["../../etc/passwd", "a/../b", "...", "..\\..\\x", "ok", "pkg..name", "é/ü"] {
        let s = sanitize_name(raw);
        assert!(!s.contains(".."), "{:?} -> {:?}", raw, s);
        assert!(s.chars().all(|c| c.is_ascii_alphanumeric() || c == '-' || c == '_' || c == '.'));
    }
    assert_eq!(sanitize_name("..."), "_.");
}
