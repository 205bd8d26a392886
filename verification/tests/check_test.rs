use nh::check::{check_nix_features, check_nix_version, setup_environment, verify_nix_environment};
use nh::error::Error;
use nh::util::{get_nix_experimental_features, get_nix_version, is_lix};

fn strings(parts: &[&str]) -> Vec<String> {
    parts.iter().map(|s| s.to_string()).collect()
}

#[test]
fn test_check_nix_version_outcomes() {
    // The minimum supported versions pass exactly.
    assert_eq!(check_nix_version("2.24.14", false, false), Ok(()));
    assert_eq!(check_nix_version("2.91.1", true, false), Ok(()));
    // Anything newer passes too.
    assert_eq!(check_nix_version("2.25.0", false, false), Ok(()));
    assert_eq!(check_nix_version("3.0.0", true, false), Ok(()));
    // Older versions are refused, carrying the version text.
    assert_eq!(
        check_nix_version("2.24.13", false, false),
        Err(Error::VersionTooOld { is_lix: false, current: "2.24.13".to_string() })
    );
    assert_eq!(
        check_nix_version("2.90.9", true, false),
        Err(Error::VersionTooOld { is_lix: true, current: "2.90.9".to_string() })
    );
    // Text that is no semantic version is an error of its own.
    assert_eq!(
        check_nix_version("not-a-version", false, false),
        Err(Error::VersionUnparsable)
    );
    // With the checks switched off, everything passes untouched.
    assert_eq!(check_nix_version("not-a-version", false, true), Ok(()));
    assert_eq!(check_nix_version("0.0.1", true, true), Ok(()));
}

#[test]
fn test_check_nix_features_outcomes() {
    let enabled = strings(&["nix-command", "flakes"]);
    assert_eq!(check_nix_features(&enabled, false, false), Ok(()));
    // Lix additionally wants its interactive-evaluation feature.
    assert_eq!(
        check_nix_features(&enabled, true, false),
        Err(Error::MissingFeatures { missing: strings(&["repl-flake"]) })
    );
    let nothing = strings(&[]);
    assert_eq!(
        check_nix_features(&nothing, false, false),
        Err(Error::MissingFeatures { missing: strings(&["nix-command", "flakes"]) })
    );
    assert_eq!(check_nix_features(&nothing, true, true), Ok(()));
}

#[test]
fn test_verify_nix_environment_composes() {
    let enabled = strings(&["nix-command", "flakes", "repl-flake"]);
    assert_eq!(verify_nix_environment("2.91.1", true, &enabled, false), Ok(()));
    assert_eq!(
        verify_nix_environment("2.0.0", true, &enabled, false),
        Err(Error::VersionTooOld { is_lix: true, current: "2.0.0".to_string() })
    );
    let nothing = strings(&[]);
    assert_eq!(
        verify_nix_environment("2.24.14", false, &nothing, false),
        Err(Error::MissingFeatures { missing: strings(&["nix-command", "flakes"]) })
    );
    assert_eq!(verify_nix_environment("zzz", false, &nothing, true), Ok(()));
}

#[test]
fn test_setup_environment_decisions() {
    // Nothing set: no warning, nothing stored.
    assert_eq!(setup_environment(None, None, None, None, None), (false, None));
    // Only the legacy override set: warn, and store it.
    assert_eq!(
        setup_environment(Some("f".to_string()), None, None, None, None),
        (true, Some("f".to_string()))
    );
    // The tool's own override already set: keep it, no warning.
    assert_eq!(
        setup_environment(Some("f".to_string()), Some("own".to_string()), None, None, None),
        (false, None)
    );
    // A platform-specific override silences the warning but the legacy
    // value is still carried over.
    assert_eq!(
        setup_environment(Some("f".to_string()), None, Some("os".to_string()), None, None),
        (false, Some("f".to_string()))
    );
    assert_eq!(
        setup_environment(Some("f".to_string()), None, None, Some("home".to_string()), None),
        (false, Some("f".to_string()))
    );
    assert_eq!(
        setup_environment(Some("f".to_string()), None, None, None, Some("darwin".to_string())),
        (false, Some("f".to_string()))
    );
}

#[test]
fn test_get_nix_version_extraction() {
    assert_eq!(
        get_nix_version("nix (Nix) 2.24.14\nextra line"),
        Some("2.24.14".to_string())
    );
    assert_eq!(get_nix_version("lix 2.91.1"), Some("2.91.1".to_string()));
    // The first match of the first line wins, greedily.
    assert_eq!(get_nix_version("v 10.2.33 and 1.2.3"), Some("10.2.33".to_string()));
    // A version on a later line does not count.
    assert_eq!(get_nix_version("no version here\n1.2.3"), None);
    assert_eq!(get_nix_version("1.2"), None);
    assert_eq!(get_nix_version(""), None);
}

#[test]
fn test_is_lix_detection() {
    assert!(is_lix("nix (Lix, like Nix) 2.91.1"));
    assert!(is_lix("lix 2.91.1"));
    assert!(is_lix("LIX"));
    assert!(!is_lix("nix (Nix) 2.24.14"));
    assert!(!is_lix(""));
}

#[test]
fn test_experimental_features_tokens() {
    assert_eq!(
        get_nix_experimental_features("nix-command flakes\n"),
        strings(&["nix-command", "flakes"])
    );
    assert_eq!(
        get_nix_experimental_features("  a\t b \n c "),
        strings(&["a", "b", "c"])
    );
    assert_eq!(get_nix_experimental_features(""), Vec::<String>::new());
    assert_eq!(get_nix_experimental_features(" \n\t "), Vec::<String>::new());
}

#[test]
fn test_has_all_experimental_features() {
    let enabled = strings(&["nix-command", "flakes"]);
    assert!(nh::util::has_all_experimental_features(
        &strings(&["flakes"]),
        &enabled
    ));
    assert!(nh::util::has_all_experimental_features(&strings(&[]), &enabled));
    assert!(!nh::util::has_all_experimental_features(
        &strings(&["flakes", "ca-derivations"]),
        &enabled
    ));
}
