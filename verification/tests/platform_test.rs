use nh::error::Error;
use nh::home::toplevel_for;
use nh::installable::Installable;
use nh::util::platform::{
    check_not_root, config_candidates, confirm_action, extend_installable_for_platform,
    get_target_hostname, get_target_profile, handle_specialisation, probe_invocation,
    probe_output_is_true, resolve_env_installable, root_check_decision, run_repl,
};
use nh::util::PlainPath;

fn strings(parts: &[&str]) -> Vec<String> {
    parts.iter().map(|s| s.to_string()).collect()
}

#[test]
fn test_resolve_env_installable() {
    let fallback = Installable::Store { path: "/nix/store/x".to_string() };
    // No override: the fallback is kept.
    let kept = resolve_env_installable(None, fallback);
    assert!(matches!(kept, Installable::Store { .. }));

    // An override with a reference and an attribute path.
    let resolved = resolve_env_installable(
        Some("github:u/r#nixosConfigurations.host".to_string()),
        Installable::Store { path: "/nix/store/x".to_string() },
    );
    match resolved {
        Installable::Flake { reference, attribute } => {
            assert_eq!(reference, "github:u/r");
            assert_eq!(attribute, strings(&["nixosConfigurations", "host"]));
        },
        other => panic!("expected a flake, got {:?}", other),
    }

    // An override without an attribute keeps the attribute empty.
    let bare = resolve_env_installable(
        Some("path:/etc/nixos".to_string()),
        Installable::Store { path: "/nix/store/x".to_string() },
    );
    match bare {
        Installable::Flake { reference, attribute } => {
            assert_eq!(reference, "path:/etc/nixos");
            assert!(attribute.is_empty());
        },
        other => panic!("expected a flake, got {:?}", other),
    }
}

#[test]
fn test_config_candidates_order() {
    let auto = config_candidates(&None, "alice", "box");
    assert_eq!(auto, strings(&["alice@box", "alice"]));
    let explicit = config_candidates(&Some("named".to_string()), "alice", "box");
    assert_eq!(explicit, strings(&["named"]));
}

#[test]
fn test_probe_invocation_shape() {
    let c = probe_invocation(
        &"github:u/r".to_string(),
        &strings(&["nixosConfigurations"]),
        &"alice@box".to_string(),
        &strings(&[]),
    );
    assert_eq!(c.command, "nix");
    assert_eq!(
        c.args,
        strings(&[
            "eval",
            "--apply",
            "x: x ? \"alice@box\"",
            "github:u/r#nixosConfigurations",
        ])
    );
}

#[test]
fn test_probe_output_is_true() {
    assert!(probe_output_is_true(&Some("true".to_string())));
    assert!(probe_output_is_true(&Some("  true\n".to_string())));
    assert!(!probe_output_is_true(&Some("false".to_string())));
    assert!(!probe_output_is_true(&Some("".to_string())));
    assert!(!probe_output_is_true(&None));
}

#[test]
fn test_extend_installable_auto_detection() {
    let flake = Installable::Flake { reference: "ref".to_string(), attribute: vec![] };
    // The second candidate (the bare user name) was the first hit.
    let extended = extend_installable_for_platform(
        flake,
        "nixosConfigurations",
        &strings(&["config", "system", "build", "toplevel"]),
        None,
        true,
        &vec![false, true],
        "alice",
        "box",
    )
    .unwrap();
    match extended {
        Installable::Flake { reference, attribute } => {
            assert_eq!(reference, "ref");
            assert_eq!(
                attribute,
                strings(&[
                    "nixosConfigurations",
                    "alice",
                    "config",
                    "system",
                    "build",
                    "toplevel"
                ])
            );
        },
        other => panic!("expected a flake, got {:?}", other),
    }
}

#[test]
fn test_extend_installable_explicit_not_found() {
    let flake = Installable::Flake { reference: "ref".to_string(), attribute: vec![] };
    let err = extend_installable_for_platform(
        flake,
        "nixosConfigurations",
        &strings(&[]),
        Some("missing".to_string()),
        false,
        &vec![false],
        "alice",
        "box",
    )
    .unwrap_err();
    match err {
        Error::ExplicitConfigNotFound { tried } => {
            assert_eq!(tried, "ref#nixosConfigurations.missing");
        },
        other => panic!("expected the explicit-name error, got {:?}", other),
    }
}

#[test]
fn test_extend_installable_nothing_found_lists_all() {
    let flake = Installable::Flake { reference: "ref".to_string(), attribute: vec![] };
    let err = extend_installable_for_platform(
        flake,
        "nixosConfigurations",
        &strings(&[]),
        None,
        false,
        &vec![false, false],
        "alice",
        "box",
    )
    .unwrap_err();
    match err {
        Error::ConfigNotFound { attempted } => {
            assert_eq!(
                attempted,
                strings(&[
                    "ref#nixosConfigurations.alice@box",
                    "ref#nixosConfigurations.alice"
                ])
            );
        },
        other => panic!("expected the not-found error, got {:?}", other),
    }
}

#[test]
fn test_extend_installable_explicit_attribute_wins() {
    // An installable that already carries an attribute path is never
    // overridden: first match wins.
    let flake = Installable::Flake {
        reference: "ref".to_string(),
        attribute: strings(&["custom", "path"]),
    };
    let extended = extend_installable_for_platform(
        flake,
        "nixosConfigurations",
        &strings(&["toplevel"]),
        Some("ignored".to_string()),
        true,
        &vec![true],
        "alice",
        "box",
    )
    .unwrap();
    match extended {
        Installable::Flake { attribute, .. } => {
            assert_eq!(attribute, strings(&["custom", "path"]));
        },
        other => panic!("expected a flake, got {:?}", other),
    }
}

#[test]
fn test_toplevel_for_home_tree() {
    let flake = Installable::Flake { reference: "home".to_string(), attribute: vec![] };
    let extended = toplevel_for(flake, true, None, &vec![true], "alice", "box").unwrap();
    match extended {
        Installable::Flake { attribute, .. } => {
            assert_eq!(
                attribute,
                strings(&[
                    "homeConfigurations",
                    "alice@box",
                    "config",
                    "home",
                    "activationPackage"
                ])
            );
        },
        other => panic!("expected a flake, got {:?}", other),
    }
}

#[test]
fn test_handle_specialisation_precedence() {
    // Switched off: nothing, whatever else is known.
    assert_eq!(
        handle_specialisation(Some("disk".to_string()), true, Some("over".to_string())),
        None
    );
    // An explicit override is preferred over the marker file's content.
    assert_eq!(
        handle_specialisation(Some("disk".to_string()), false, Some("over".to_string())),
        Some("over".to_string())
    );
    // Else the marker file's content; its absence is not an error.
    assert_eq!(
        handle_specialisation(Some("disk".to_string()), false, None),
        Some("disk".to_string())
    );
    assert_eq!(handle_specialisation(None, false, None), None);
}

#[test]
fn test_get_target_profile_paths() {
    let out = PlainPath { path: "/tmp/result".to_string() };
    assert_eq!(get_target_profile(&out, &None), "/tmp/result");
    assert_eq!(
        get_target_profile(&out, &Some("wayland".to_string())),
        "/tmp/result/specialisation/wayland"
    );
}

#[test]
fn test_confirm_action_outcomes() {
    // A dry run never proceeds and never prompts.
    assert_eq!(confirm_action(true, true, None), Ok(false));
    // Without a requested confirmation the operation proceeds.
    assert_eq!(confirm_action(false, false, None), Ok(true));
    // The prompt's answer decides.
    assert_eq!(confirm_action(true, false, Some(true)), Ok(true));
    assert_eq!(confirm_action(true, false, Some(false)), Err(Error::UserRejected));
    assert_eq!(confirm_action(true, false, None), Err(Error::PromptFailed));
}

#[test]
fn test_root_check_decision() {
    assert_eq!(root_check_decision(true, true), Ok(false));
    assert_eq!(root_check_decision(true, false), Ok(false));
    assert_eq!(root_check_decision(false, true), Err(Error::RunningAsRoot));
    assert_eq!(root_check_decision(false, false), Ok(true));
    // The live check can only fail with the same refusal.
    match check_not_root(false) {
        Ok(elevate) => assert!(elevate),
        Err(e) => assert_eq!(e, Error::RunningAsRoot),
    }
    assert_eq!(check_not_root(true), Ok(false));
}

#[test]
fn test_get_target_hostname_decisions() {
    // Explicit name, differing from the machine's: mismatch noted.
    assert_eq!(
        get_target_hostname(Some("other".to_string()), true, Some("box".to_string())),
        Ok(("other".to_string(), true))
    );
    // Explicit name equal to the machine's: no mismatch.
    assert_eq!(
        get_target_hostname(Some("box".to_string()), true, Some("box".to_string())),
        Ok(("box".to_string(), false))
    );
    // No explicit name: the machine's own, never a mismatch.
    assert_eq!(
        get_target_hostname(None, true, Some("box".to_string())),
        Ok(("box".to_string(), false))
    );
    // Neither available: fatal.
    assert_eq!(
        get_target_hostname(None, true, None),
        Err(Error::HostnameUnavailable)
    );
}

#[test]
fn test_run_repl_refuses_store_paths() {
    let store = Installable::Store { path: "/nix/store/x".to_string() };
    assert!(matches!(run_repl(&store), Err(Error::StoreNotSupported)));

    let flake = Installable::Flake {
        reference: "ref".to_string(),
        attribute: strings(&["nixosConfigurations", "box"]),
    };
    let c = run_repl(&flake).unwrap();
    assert_eq!(c.command, "nix");
    assert_eq!(c.args, strings(&["repl", "ref#nixosConfigurations.box"]));
    assert!(c.show_output);
}
