use openwhisper::version::{is_newer, version_parts_of};

#[test]
fn semver_basic_comparisons() {
    assert!(is_newer("0.2.0", "0.1.0"));
    assert!(is_newer("1.0.0", "0.9.99"));
    assert!(!is_newer("0.1.0", "0.1.0"));
    assert!(!is_newer("0.1.0", "0.2.0"));
}

#[test]
fn semver_handles_v_prefix_already_stripped() {
    assert!(is_newer("1.2.3", "1.2.2"));
}

#[test]
fn semver_ignores_non_numeric_suffixes() {
    assert!(is_newer("1.2.3-rc.1", "1.2.3"));
}

#[test]
fn version_parts_keep_only_numbers() {
    assert_eq!(version_parts_of("1.2.3-rc.1+build7"), vec![1, 2, 3, 1]);
    assert_eq!(version_parts_of(""), Vec::<u64>::new());
    assert_eq!(version_parts_of("v1..x.18446744073709551615"), vec![18446744073709551615]);
    assert_eq!(version_parts_of("2.18446744073709551616"), vec![2]);
    assert_eq!(version_parts_of("007.1"), vec![7, 1]);
}

#[test]
fn missing_parts_count_as_zero() {
    assert!(!is_newer("1.0", "1"));
    assert!(!is_newer("1", "1.0.0"));
    assert!(is_newer("1.0.1", "1"));
    assert!(!is_newer("1", "1.0.1"));
}

#[test]
fn newer_is_asymmetric_and_transitive_on_examples() {
    let vs = ["0.1.0", "0.2.0", "1.0.0", "1.0.0-rc.2", "1.2", "1.10"];
    for a in vs {
        assert!(!is_newer(a, a));
        for b in vs {
            assert!(!(is_newer(a, b) && is_newer(b, a)));
            for c in vs {
                if is_newer(a, b) && is_newer(b, c) {
                    assert!(is_newer(a, c));
                }
            }
        }
    }
}
