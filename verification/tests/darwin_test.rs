use nh::darwin::{DarwinRebuildArgs, DarwinRebuildVariant, DarwinReplArgs};
use nh::error::Error;
use nh::installable::Installable;
use nh::util::platform::{rebuild_step, RebuildAction, RebuildEvent};

fn strings(parts: &[&str]) -> Vec<String> {
    parts.iter().map(|s| s.to_string()).collect()
}

/// A darwin switch first registers the artifact as the system profile,
/// then runs the darwin rebuild program with the elevation the artifact
/// itself asked for.
#[test]
fn test_darwin_switch_order() {
    let args = DarwinRebuildArgs { dry: false, ask: false, no_nom: true, hostname: None };
    let installable = Installable::Flake {
        reference: "github:u/darwin".to_string(),
        attribute: strings(&["darwinConfigurations", "mac", "toplevel"]),
    };
    let (cfg, state, action) = args.rebuild(
        DarwinRebuildVariant::Switch,
        installable,
        "/tmp/darwin-out".to_string(),
    );
    assert!(matches!(action, RebuildAction::RunBuild(_)));

    let (state, _diff) = rebuild_step(
        &cfg,
        state,
        RebuildEvent::BuildFinished { status: None, spec_content: None },
    );
    let (state, action) = rebuild_step(&cfg, state, RebuildEvent::DiffFinished { status: None });
    let profile_build = match action {
        RebuildAction::RunBootBuild(c) => c,
        other => panic!("expected the profile registration, got {:?}", other),
    };
    assert_eq!(profile_build.command, "nix");
    assert_eq!(
        profile_build.args,
        strings(&[
            "build",
            "--no-link",
            "--profile",
            "/nix/var/nix/profiles/system",
            "/tmp/darwin-out",
        ])
    );
    assert!(profile_build.elevate);

    // The artifact's activation script says elevation is needed.
    let (state, action) = rebuild_step(&cfg, state, RebuildEvent::BootBuildFinished {
        status: None,
        needs_elevation: Some(true),
    });
    let activate = match action {
        RebuildAction::RunBootActivate(c) => c,
        other => panic!("expected the darwin activation, got {:?}", other),
    };
    assert_eq!(activate.command, "/tmp/darwin-out/sw/bin/darwin-rebuild");
    assert_eq!(activate.args, strings(&["activate"]));
    assert!(activate.elevate);

    let (_state, action) = rebuild_step(&cfg, state, RebuildEvent::BootActivateFinished {
        status: None,
    });
    match action {
        RebuildAction::Finish { result, .. } => assert!(result.is_ok()),
        other => panic!("expected the pipeline to finish, got {:?}", other),
    }
}

/// The darwin build variant never asks and stops after the diff.
#[test]
fn test_darwin_build_only() {
    let args = DarwinRebuildArgs { dry: false, ask: true, no_nom: true, hostname: None };
    let installable = Installable::Store { path: "/nix/store/d".to_string() };
    let (cfg, state, _action) = args.rebuild(
        DarwinRebuildVariant::Build,
        installable,
        "/tmp/darwin-out".to_string(),
    );
    assert!(!cfg.ask, "a pure build never asks");
    let (state, _diff) = rebuild_step(
        &cfg,
        state,
        RebuildEvent::BuildFinished { status: None, spec_content: None },
    );
    let (_state, action) = rebuild_step(&cfg, state, RebuildEvent::DiffFinished { status: None });
    match action {
        RebuildAction::Finish { result, .. } => assert!(result.is_ok()),
        other => panic!("expected the pipeline to finish, got {:?}", other),
    }
}

#[test]
fn test_darwin_repl_refuses_store() {
    let store = Installable::Store { path: "/nix/store/x".to_string() };
    assert!(matches!(
        DarwinReplArgs::run(&store),
        Err(Error::StoreNotSupported)
    ));
}
