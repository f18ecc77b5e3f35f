#[test]
fn test_python_file_detection() {
    // This would require creating temp files
    // For now, just ensure the module compiles
}

use clu::analysis::package::{
    archive_format, extract_href, file_section, find_distribution_link, pick_release_url,
    truncate_source, ArchiveFormat, ReleaseFile,
};

#[test]
fn test_extract_href() {
    assert_eq!(
        extract_href(r#"<a href="https://files/x-1.0.tar.gz#sha256=ab">x</a>"#),
        Some("https://files/x-1.0.tar.gz#sha256=ab".to_string())
    );
    assert_eq!(extract_href("no link"), None);
    assert_eq!(extract_href(r#"<a href="unterminated"#), None);
}

#[test]
fn test_find_distribution_link_prefers_sdist() {
    let html = "<a href=\"https://f/p-1.whl\">w</a>\n<a href=\"https://f/p-1.tar.gz\">s</a>\n";
    assert_eq!(find_distribution_link(html), Some("https://f/p-1.tar.gz".to_string()));
    let wheel_only = "<a href=\"https://f/p-1.whl\">w</a>\n";
    assert_eq!(find_distribution_link(wheel_only), Some("https://f/p-1.whl".to_string()));
    assert_eq!(find_distribution_link("<p>nothing</p>"), None);
}

fn file(name: Option<&str>, url: Option<&str>) -> ReleaseFile {
    ReleaseFile { filename: name.map(|s| s.to_string()), url: url.map(|s| s.to_string()) }
}

#[test]
fn test_pick_release_url() {
    let files = vec![
        file(Some("p-1-py3-none-any.whl"), Some("https://f/w1")),
        file(Some("p-1-py2-none-any.whl"), Some("https://f/w2")),
        file(Some("p-1.tar.gz"), Some("https://f/s")),
    ];
    assert_eq!(pick_release_url(&files), Some("https://f/s".to_string()));
    let wheels = vec![file(Some("p-1-py3-none-any.whl"), Some("https://f/w1")), file(None, Some("x"))];
    assert_eq!(pick_release_url(&wheels), Some("https://f/w1".to_string()));
    assert_eq!(pick_release_url(&[file(Some("p.zip"), Some("z"))]), None);
}

#[test]
fn test_archive_format() {
    assert_eq!(archive_format("https://f/p-1.tar.gz"), Ok(ArchiveFormat::TarGz));
    assert_eq!(archive_format("https://f/p-1.whl"), Ok(ArchiveFormat::Wheel));
    assert_eq!(
        archive_format("https://f/p-1.zip"),
        Err("Unsupported distribution format (expected .tar.gz or .whl)".to_string())
    );
}

#[test]
fn test_truncate_source() {
    assert_eq!(truncate_source("short", 10), "short");
    assert_eq!(truncate_source("abcdef", 3), "abc\n... (truncated from 6 bytes)");
    // "é" is two bytes and does not fit in the one byte left.
    assert_eq!(truncate_source("aéb", 2), "a\n... (truncated from 4 bytes)");
    assert_eq!(file_section("setup.py", "x"), "\n# File: setup.py\nx\n");
}
