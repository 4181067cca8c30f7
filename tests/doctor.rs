use luxctl::doctor::{extract_version, version_from_text};

#[test]
fn test_extract_version_git() {
    let output = b"git version 2.39.0";
    assert_eq!(extract_version(output), Some("2.39.0".to_string()));
}

#[test]
fn test_extract_version_go() {
    let output = b"go version go1.22.0 darwin/arm64";
    assert_eq!(extract_version(output), Some("1.22.0".to_string()));
}

#[test]
fn test_extract_version_cargo() {
    let output = b"cargo 1.75.0 (abc123 2024-01-01)";
    assert_eq!(extract_version(output), Some("1.75.0".to_string()));
}

#[test]
fn test_extract_version_docker() {
    let output = b"Docker version 24.0.7, build abcd123";
    assert_eq!(extract_version(output), Some("24.0.7".to_string()));
}

#[test]
fn test_extract_version_make() {
    let output = b"GNU Make 3.81";
    assert_eq!(extract_version(output), Some("3.81".to_string()));
}

#[test]
fn test_extract_version_fallback() {
    let output = b"some unknown format";
    assert_eq!(extract_version(output), Some("some unknown format".to_string()));
}

#[test]
fn version_edge_cases() {
    assert_eq!(version_from_text(""), None);
    assert_eq!(version_from_text("  tool   vv1.2,, \nsecond 9.9"), Some("1.2".to_string()));
    assert_eq!(version_from_text("  plain words  \n"), Some("plain words".to_string()));
    assert_eq!(extract_version(b"tool \xff 4.5"), Some("4.5".to_string()));
}
