use random_test_cli::version::{
    compare_versions, normalize_version, order_numbers, parse_version, should_update,
    VersionOrder,
};
use std::cmp::Ordering;

#[test]
fn compares_latest_tag_to_current_version() {
    assert!(!should_update("0.1.0", "v0.1.0"));
    assert!(should_update("0.1.0", "v0.1.1"));
    assert!(!should_update("0.2.0", "v0.1.9"));
}

#[test]
fn normalizes_versions() {
    assert_eq!(normalize_version("  v1.2.3 \n"), "1.2.3");
    assert_eq!(normalize_version("vv2"), "2");
    assert_eq!(normalize_version("1.0"), "1.0");
    assert_eq!(normalize_version("   "), "");
    assert_eq!(normalize_version("\u{3000}\u{a0}v3\u{2028}"), "3");
    assert_eq!(normalize_version("\u{200b}v3"), "\u{200b}v3");
}

#[test]
fn parses_versions() {
    assert_eq!(parse_version("v1.2.3"), Some(vec![1, 2, 3]));
    assert_eq!(parse_version("1.2.3-beta.1"), Some(vec![1, 2, 3]));
    assert_eq!(parse_version("1.2+build.5"), Some(vec![1, 2]));
    assert_eq!(parse_version("18446744073709551615"), Some(vec![u64::MAX]));
    assert_eq!(parse_version("18446744073709551616"), None);
    assert_eq!(parse_version("1..2"), None);
    assert_eq!(parse_version("nightly"), None);
    assert_eq!(parse_version(""), None);
}

#[test]
fn compares_versions() {
    assert_eq!(compare_versions("1.2", "1.10"), Some(Ordering::Less));
    assert_eq!(compare_versions("1.2.0", "1.2"), Some(Ordering::Greater));
    assert_eq!(compare_versions("v1.2", "1.2-rc1"), Some(Ordering::Equal));
    assert_eq!(compare_versions("x", "1"), None);
    assert_eq!(order_numbers(&vec![1, 2], &vec![1, 3]), VersionOrder::Less);
    assert_eq!(order_numbers(&vec![], &vec![]), VersionOrder::Equal);
}

#[test]
fn version_laws_on_examples() {
    let vs = ["0.1.0", "v0.1.1", "0.2", "1.0.0-rc1", "nightly", " v2 "];
    for a in vs {
        assert!(!should_update(a, a));
        for b in vs {
            let ab = compare_versions(a, b);
            let ba = compare_versions(b, a);
            assert_eq!(ab.map(Ordering::reverse), ba);
            if parse_version(a).is_some() && parse_version(b).is_some() {
                assert!(!(should_update(a, b) && should_update(b, a)));
                for c in vs {
                    if parse_version(c).is_some() && should_update(a, b) && should_update(b, c) {
                        assert!(should_update(a, c));
                    }
                }
            }
        }
    }
    // Unreadable versions that differ update each other both ways.
    assert!(should_update("x", "y") && should_update("y", "x"));
}
