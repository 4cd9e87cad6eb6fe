use basilisk_zed::is_newer_version;
use basilisk_zed::text::u32_to_decimal;
use basilisk_zed::version::parse_version;

#[test]
fn newer_major() {
    assert!(is_newer_version("0.1.0", "1.0.0"));
}

#[test]
fn newer_minor() {
    assert!(is_newer_version("0.1.0", "0.2.0"));
}

#[test]
fn newer_patch() {
    assert!(is_newer_version("0.1.0", "0.1.1"));
}

#[test]
fn same_version() {
    assert!(!is_newer_version("0.1.0", "0.1.0"));
}

#[test]
fn older_version() {
    assert!(!is_newer_version("1.0.0", "0.9.0"));
}

#[test]
fn v_prefix_stripped() {
    assert!(is_newer_version("v0.1.0", "v0.2.0"));
    assert!(is_newer_version("0.1.0", "v0.2.0"));
    assert!(is_newer_version("v0.1.0", "0.2.0"));
}

#[test]
fn v_prefix_same() {
    assert!(!is_newer_version("v0.1.0", "v0.1.0"));
}

// ── Further cases ────────────────────────────────────────────────────

#[test]
fn parse_version_components() {
    assert_eq!(parse_version("v1.2.3"), (1, 2, 3));
    assert_eq!(parse_version("10.20.30"), (10, 20, 30));
    assert_eq!(parse_version("1.2"), (1, 2, 0));
    assert_eq!(parse_version(""), (0, 0, 0));
    assert_eq!(parse_version("1.x.3"), (1, 0, 3));
    assert_eq!(parse_version("1.2.3.4"), (1, 2, 3));
    assert_eq!(parse_version("+1.+2.3"), (1, 2, 3));
    assert_eq!(parse_version("1.2.3-beta"), (1, 2, 0));
    assert_eq!(parse_version("4294967295.0.1"), (4294967295, 0, 1));
    assert_eq!(parse_version("4294967296.5.1"), (0, 5, 1));
    assert_eq!(parse_version("vv1.2.3"), (0, 2, 3));
    assert_eq!(parse_version("1..3"), (1, 0, 3));
    assert_eq!(parse_version("+.1.1"), (0, 1, 1));
}

#[test]
fn newer_is_not_symmetric() {
    for (a, b) in [("0.1.0", "0.2.0"), ("1.0.0", "0.9.9"), ("2.0", "2.0.1")] {
        assert!(!(is_newer_version(a, b) && is_newer_version(b, a)));
    }
}

#[test]
fn newer_is_transitive() {
    assert!(is_newer_version("0.1.0", "0.2.0"));
    assert!(is_newer_version("0.2.0", "1.0.0"));
    assert!(is_newer_version("0.1.0", "1.0.0"));
}

#[test]
fn unequal_versions_are_ordered() {
    assert!(is_newer_version("1.2.3", "1.3.0") || is_newer_version("1.3.0", "1.2.3"));
    assert!(!is_newer_version("1.2", "1.2.0") && !is_newer_version("1.2.0", "1.2"));
}

#[test]
fn leading_v_ignored() {
    for (a, b) in [("0.1.0", "0.2.0"), ("3.0.0", "2.9.9"), ("1.0", "1.0.0")] {
        assert_eq!(is_newer_version(a, b), is_newer_version(&format!("v{a}"), b));
        assert_eq!(is_newer_version(a, b), is_newer_version(a, &format!("v{b}")));
    }
}

#[test]
fn decimal_rendering() {
    assert_eq!(u32_to_decimal(0), "0");
    assert_eq!(u32_to_decimal(7), "7");
    assert_eq!(u32_to_decimal(10), "10");
    assert_eq!(u32_to_decimal(9876), "9876");
    assert_eq!(u32_to_decimal(4294967295), "4294967295");
}
