use std::cmp::Ordering;

use dsh_desktop::ordering::{cmp_prerelease, cmp_semver};
use dsh_desktop::semver::{parse_semver, requirement_satisfied, semver_order, version_token, Order};

#[test]
fn parses_plain_and_prefixed_versions() {
    assert_eq!(parse_semver("1.2.3"), Some((1, 2, 3, None)));
    assert_eq!(parse_semver(" v1.2.3-rc.1 "), Some((1, 2, 3, Some("rc.1".to_string()))));
    assert_eq!(parse_semver("1.2.3-beta-2"), Some((1, 2, 3, Some("beta-2".to_string()))));
    assert_eq!(parse_semver("1.2.3-"), Some((1, 2, 3, Some(String::new()))));
    assert_eq!(parse_semver("+1.2.3"), Some((1, 2, 3, None)));
    assert_eq!(parse_semver("v1.2.3"), parse_semver("1.2.3"));
}

#[test]
fn rejects_malformed_versions() {
    for s in ["1.2", "1.2.3.4", "a.b.c", "vv1.2.3", "", "1..3", "1.2.x-rc", "-1.2.3"] {
        assert_eq!(parse_semver(s), None, "input {s:?}");
    }
}

#[test]
fn prerelease_identifiers_compare() {
    assert_eq!(cmp_prerelease("alpha", "beta"), Ordering::Less);
    assert_eq!(cmp_prerelease("1", "alpha"), Ordering::Less);
    assert_eq!(cmp_prerelease("alpha", "1"), Ordering::Greater);
    assert_eq!(cmp_prerelease("alpha.1", "alpha"), Ordering::Greater);
    assert_eq!(cmp_prerelease("2", "10"), Ordering::Less);
    assert_eq!(cmp_prerelease("01", "1"), Ordering::Equal);
    assert_eq!(cmp_prerelease("rc.1", "rc.1"), Ordering::Equal);
    assert_eq!(cmp_prerelease("rc.2", "rc.10"), Ordering::Less);
}

#[test]
fn versions_compare() {
    let v = |s: &str| parse_semver(s).unwrap();
    assert_eq!(cmp_semver(&v("1.2.3"), &v("1.2.3-rc.1")), Ordering::Greater);
    assert_eq!(cmp_semver(&v("1.10.0"), &v("1.9.9")), Ordering::Greater);
    assert_eq!(cmp_semver(&v("1.2.3-rc.1"), &v("1.2.3-rc.2")), Ordering::Less);
    assert_eq!(cmp_semver(&v("v2.0.0"), &v("2.0.0")), Ordering::Equal);
    assert_eq!(semver_order(&v("0.1.0"), &v("0.0.9")), Order::Greater);
}

#[test]
fn order_is_antisymmetric_and_transitive_on_samples() {
    let xs = ["1.0.0", "1.0.0-alpha", "1.0.0-alpha.1", "1.0.0-1", "1.0.0-beta", "0.9.9", "1.0.1", "1.0.0-01"];
    let vs: Vec<_> = xs.iter().map(|s| parse_semver(s).unwrap()).collect();
    for a in &vs {
        assert_eq!(cmp_semver(a, a), Ordering::Equal);
        for b in &vs {
            assert_eq!(cmp_semver(a, b), cmp_semver(b, a).reverse());
            for c in &vs {
                if cmp_semver(a, b) != Ordering::Greater && cmp_semver(b, c) != Ordering::Greater {
                    assert_ne!(cmp_semver(a, c), Ordering::Greater);
                }
            }
        }
    }
}

#[test]
fn requirement_verdicts() {
    assert_eq!(requirement_satisfied(">=1.2.3", "1.2.3"), Some(true));
    assert_eq!(requirement_satisfied(">=1.2.3", "1.2.2"), Some(false));
    assert_eq!(requirement_satisfied(" >=1.2.3-rc.1 ", "1.2.3-rc.2"), Some(true));
    assert_eq!(requirement_satisfied(">=1.2.3", "1.2.3-rc.1"), Some(false));
    assert_eq!(requirement_satisfied(">= 1.2.3", "2.0.0"), Some(true));
}

#[test]
fn requirement_fails_closed() {
    assert_eq!(requirement_satisfied("^1.2.3", "1.2.3"), None);
    assert_eq!(requirement_satisfied(">=x", "1.0.0"), None);
    assert_eq!(requirement_satisfied(">=1.0.0", "garbage"), None);
    assert_eq!(requirement_satisfied("", "1.0.0"), None);
}

#[test]
fn requirement_is_monotone_on_samples() {
    assert_eq!(requirement_satisfied(">=0.4.0", "0.4.0"), Some(true));
    assert_eq!(requirement_satisfied(">=0.4.0", "0.4.1"), Some(true));
    assert_eq!(requirement_satisfied(">=0.4.0", "1.0.0"), Some(true));
}

#[test]
fn version_token_reads_cli_output() {
    assert_eq!(version_token(b"v0.9.1\n"), Some("0.9.1".to_string()));
    assert_eq!(version_token(b"  vv1.2.3 extra words"), Some("1.2.3".to_string()));
    assert_eq!(version_token(b"dsh 1.0.0"), None);
    assert_eq!(version_token(b""), None);
    assert_eq!(version_token(b"\xff1.2.3"), None);
}

#[test]
fn printed_versions_parse_back() {
    for (a, b, c) in [(0u64, 0u64, 0u64), (1, 2, 3), (10, 0, 7), (u64::MAX, 0, 42)] {
        assert_eq!(parse_semver(&format!("{a}.{b}.{c}")), Some((a, b, c, None)));
        for p in ["", "rc.1", "beta x", "a-b"] {
            assert_eq!(
                parse_semver(&format!("v{a}.{b}.{c}-{p}")),
                Some((a, b, c, Some(p.to_string())))
            );
        }
    }
}
