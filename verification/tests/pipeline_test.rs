use nh::error::{Error, ProcessStatus};
use nh::generations::GenerationInfo;
use nh::home::{HomeRebuildArgs, HomeRebuildVariant};
use nh::installable::Installable;
use nh::nixos::{
    rollback_step, OsRebuildArgs, OsRebuildVariant, OsRollbackArgs, RollbackAction, RollbackEvent,
};
use nh::util::platform::{rebuild_step, RebuildAction, RebuildEvent};

fn os_args() -> OsRebuildArgs {
    OsRebuildArgs {
        dry: false,
        ask: false,
        no_nom: true,
        hostname: None,
        specialisation: None,
        no_specialisation: true,
        target_host: None,
        build_host: None,
        bypass_root_check: false,
    }
}

fn flake() -> Installable {
    Installable::Flake {
        reference: "github:user/config".to_string(),
        attribute: vec!["nixosConfigurations".to_string(), "host".to_string()],
    }
}

fn gen(number: u64, current: bool) -> GenerationInfo {
    GenerationInfo {
        number,
        path: format!("/nix/var/nix/profiles/system-{}-link", number),
        current,
    }
}

/// A dry run (or a build-only variant) with confirmation requested: no
/// activation, boot-registration or copy action is ever emitted, the
/// warning about the ignored flag is raised, and the run still succeeds.
#[test]
fn test_dry_run_never_activates() {
    let mut args = os_args();
    args.dry = true;
    args.ask = true;
    let (cfg, state, action) = args.rebuild_with_installable(
        OsRebuildVariant::Switch,
        flake(),
        true,
        "/tmp/out".to_string(),
        false,
        "Building NixOS configuration",
    );
    assert!(matches!(action, RebuildAction::RunBuild(_)));

    // The build succeeded; no specialisation marker exists.
    let (state, action) = rebuild_step(
        &cfg,
        state,
        RebuildEvent::BuildFinished { status: None, spec_content: None },
    );
    let diff = match action {
        RebuildAction::RunDiff(c) => c,
        other => panic!("expected the diff, got {:?}", other),
    };
    assert_eq!(diff.command, "nvd");
    assert_eq!(diff.args, vec!["diff", "/run/current-system", "/tmp/out"]);

    let (_state, action) = rebuild_step(&cfg, state, RebuildEvent::DiffFinished { status: None });
    match action {
        RebuildAction::Finish { result, warn_ask_ignored } => {
            assert!(result.is_ok());
            assert!(warn_ask_ignored, "the requested confirmation must be warned about");
        },
        other => panic!("expected the pipeline to finish, got {:?}", other),
    }
}

/// A build-only variant stops after the diff with success.
#[test]
fn test_build_only_stops_after_diff() {
    let args = os_args();
    let (cfg, state, _action) = args.rebuild_with_installable(
        OsRebuildVariant::Build,
        flake(),
        true,
        "/tmp/out".to_string(),
        false,
        "Building NixOS configuration",
    );
    let (state, _action) = rebuild_step(
        &cfg,
        state,
        RebuildEvent::BuildFinished { status: None, spec_content: None },
    );
    let (_state, action) = rebuild_step(&cfg, state, RebuildEvent::DiffFinished { status: None });
    match action {
        RebuildAction::Finish { result, warn_ask_ignored } => {
            assert!(result.is_ok());
            assert!(!warn_ask_ignored);
        },
        other => panic!("expected the pipeline to finish, got {:?}", other),
    }
}

/// A full switch runs activation in test mode, registers the boot
/// default and re-activates in boot mode, in that order.
#[test]
fn test_switch_action_order() {
    let args = os_args();
    let (cfg, state, _action) = args.rebuild_with_installable(
        OsRebuildVariant::Switch,
        flake(),
        true,
        "/tmp/out".to_string(),
        false,
        "Building NixOS configuration",
    );
    let (state, _diff) = rebuild_step(
        &cfg,
        state,
        RebuildEvent::BuildFinished { status: None, spec_content: None },
    );
    let (state, action) = rebuild_step(&cfg, state, RebuildEvent::DiffFinished { status: None });
    let activate = match action {
        RebuildAction::RunActivate(c) => c,
        other => panic!("expected activation, got {:?}", other),
    };
    assert_eq!(activate.command, "/tmp/out/bin/switch-to-configuration");
    assert_eq!(activate.args, vec!["test"]);
    assert!(activate.elevate);

    let (state, action) = rebuild_step(&cfg, state, RebuildEvent::ActivateFinished {
        status: None,
    });
    let boot_build = match action {
        RebuildAction::RunBootBuild(c) => c,
        other => panic!("expected the boot profile registration, got {:?}", other),
    };
    assert_eq!(boot_build.command, "nix");
    assert_eq!(
        boot_build.args,
        vec!["build", "--no-link", "--profile", "/nix/var/nix/profiles/system", "/tmp/out"]
    );
    assert!(boot_build.elevate);

    let (state, action) = rebuild_step(&cfg, state, RebuildEvent::BootBuildFinished {
        status: None,
        needs_elevation: None,
    });
    let boot_activate = match action {
        RebuildAction::RunBootActivate(c) => c,
        other => panic!("expected the boot activation, got {:?}", other),
    };
    assert_eq!(boot_activate.command, "/tmp/out/bin/switch-to-configuration");
    assert_eq!(boot_activate.args, vec!["boot"]);

    let (_state, action) = rebuild_step(&cfg, state, RebuildEvent::BootActivateFinished {
        status: None,
    });
    match action {
        RebuildAction::Finish { result, .. } => assert!(result.is_ok()),
        other => panic!("expected the pipeline to finish, got {:?}", other),
    }
}

/// A rejected confirmation aborts the pipeline with the user's own error.
#[test]
fn test_rejected_confirmation() {
    let mut args = os_args();
    args.ask = true;
    let (cfg, state, _action) = args.rebuild_with_installable(
        OsRebuildVariant::Test,
        flake(),
        true,
        "/tmp/out".to_string(),
        false,
        "Building NixOS configuration",
    );
    let (state, _diff) = rebuild_step(
        &cfg,
        state,
        RebuildEvent::BuildFinished { status: None, spec_content: None },
    );
    let (state, action) = rebuild_step(&cfg, state, RebuildEvent::DiffFinished { status: None });
    assert!(matches!(action, RebuildAction::AskConfirmation));
    let (_state, action) = rebuild_step(&cfg, state, RebuildEvent::Confirmed {
        answer: Some(false),
    });
    match action {
        RebuildAction::Finish { result, .. } => {
            assert_eq!(result, Err(Error::UserRejected));
        },
        other => panic!("expected the pipeline to finish, got {:?}", other),
    }
}

/// A failed build surfaces the command failure and stops the pipeline.
#[test]
fn test_failed_build_is_fatal() {
    let args = os_args();
    let (cfg, state, _action) = args.rebuild_with_installable(
        OsRebuildVariant::Switch,
        flake(),
        true,
        "/tmp/out".to_string(),
        false,
        "Building NixOS configuration",
    );
    let (_state, action) = rebuild_step(
        &cfg,
        state,
        RebuildEvent::BuildFinished {
            status: Some(ProcessStatus::Exited(1)),
            spec_content: None,
        },
    );
    match action {
        RebuildAction::Finish { result, .. } => {
            assert_eq!(result, Err(Error::CommandFailed(ProcessStatus::Exited(1))));
        },
        other => panic!("expected the pipeline to finish, got {:?}", other),
    }
}

/// The user-environment pipeline swallows a diff failure and proceeds.
#[test]
fn test_home_lenient_diff() {
    let args = HomeRebuildArgs {
        dry: false,
        ask: false,
        no_nom: true,
        configuration: None,
        specialisation: None,
        no_specialisation: true,
        backup_extension: Some("bak".to_string()),
        diff_never: false,
    };
    let installable = Installable::Flake {
        reference: "github:user/home".to_string(),
        attribute: vec!["homeConfigurations".to_string(), "user".to_string()],
    };
    let (cfg, state, _action) = args.rebuild(
        HomeRebuildVariant::Switch,
        installable,
        "/tmp/home-out".to_string(),
        Some("/nix/var/nix/profiles/per-user/user/home-manager".to_string()),
    );
    let (state, _diff) = rebuild_step(
        &cfg,
        state,
        RebuildEvent::BuildFinished { status: None, spec_content: None },
    );
    // The diff tool failed, but the step is not fatal here.
    let (_state, action) = rebuild_step(&cfg, state, RebuildEvent::DiffFinished {
        status: Some(ProcessStatus::Exited(1)),
    });
    let activate = match action {
        RebuildAction::RunActivate(c) => c,
        other => panic!("expected activation despite the diff failure, got {:?}", other),
    };
    assert_eq!(activate.command, "/tmp/home-out/activate");
    assert!(activate.args.is_empty());
    // The backup extension is handed to the activation as its variable.
    assert_eq!(activate.env_vars.len(), 1);
    assert_eq!(activate.env_vars[0].0, "HOME_MANAGER_BACKUP_EXT");
}

/// Rollback scenario: activation of the repointed target fails, so the
/// profile symlink is repointed back at the exact link it resolved to
/// before the operation, and the surfaced error is the activation
/// failure, not a generic one.
#[test]
fn test_rollback_reverts_on_activation_failure() {
    let args = OsRollbackArgs {
        to: None,
        dry: false,
        ask: false,
        bypass_root_check: false,
        specialisation: None,
        no_specialisation: true,
    };
    let (cfg, state, action) = args.rollback(true);
    assert!(matches!(action, RollbackAction::ListGenerations));

    let pre_operation_target = "/nix/var/nix/profiles/system-3-link".to_string();
    let listing = vec![gen(1, false), gen(2, false), gen(3, true)];
    let (state, action) = rollback_step(
        &cfg,
        state,
        RollbackEvent::Listed { generations: listing, spec_content: None },
    );
    let diff = match action {
        RollbackAction::RunDiff(c) => c,
        other => panic!("expected the diff, got {:?}", other),
    };
    assert_eq!(
        diff.args,
        vec!["diff", "/run/current-system", "/nix/var/nix/profiles/system-2-link"]
    );

    let (state, action) = rollback_step(&cfg, state, RollbackEvent::DiffFinished { status: None });
    let repoint = match action {
        RollbackAction::Repoint(c) => c,
        other => panic!("expected the repoint, got {:?}", other),
    };
    assert_eq!(repoint.command, "ln");
    assert_eq!(
        repoint.args,
        vec!["-sfn", "/nix/var/nix/profiles/system-2-link", "/nix/var/nix/profiles/system"]
    );
    assert!(repoint.elevate);

    let (state, action) = rollback_step(&cfg, state, RollbackEvent::Repointed { status: None });
    let activate = match action {
        RollbackAction::RunActivate(c) => c,
        other => panic!("expected the activation, got {:?}", other),
    };
    assert_eq!(
        activate.command,
        "/nix/var/nix/profiles/system-2-link/bin/switch-to-configuration"
    );
    assert_eq!(activate.args, vec!["switch"]);

    // The activation fails: the profile must go back where it was.
    let (state, action) = rollback_step(&cfg, state, RollbackEvent::Activated {
        status: Some(ProcessStatus::Exited(2)),
    });
    let revert = match action {
        RollbackAction::Revert(c) => c,
        other => panic!("expected the compensating revert, got {:?}", other),
    };
    assert_eq!(
        revert.args,
        vec!["-sfn", pre_operation_target.as_str(), "/nix/var/nix/profiles/system"]
    );

    let (_state, action) = rollback_step(&cfg, state, RollbackEvent::Reverted { status: None });
    match action {
        RollbackAction::Finish { result } => {
            assert_eq!(result, Err(Error::ActivationFailed(ProcessStatus::Exited(2))));
        },
        other => panic!("expected the rollback to finish, got {:?}", other),
    }
}

/// When the revert itself fails too, both outcomes are surfaced and the
/// activation failure is not hidden.
#[test]
fn test_rollback_revert_failure_keeps_both() {
    let args = OsRollbackArgs {
        to: Some(1),
        dry: false,
        ask: false,
        bypass_root_check: false,
        specialisation: None,
        no_specialisation: true,
    };
    let (cfg, state, _action) = args.rollback(true);
    let listing = vec![gen(1, false), gen(2, true)];
    let (state, _action) = rollback_step(
        &cfg,
        state,
        RollbackEvent::Listed { generations: listing, spec_content: None },
    );
    let (state, _action) = rollback_step(&cfg, state, RollbackEvent::DiffFinished { status: None });
    let (state, _action) = rollback_step(&cfg, state, RollbackEvent::Repointed { status: None });
    let (state, _action) = rollback_step(&cfg, state, RollbackEvent::Activated {
        status: Some(ProcessStatus::Exited(3)),
    });
    let (_state, action) = rollback_step(&cfg, state, RollbackEvent::Reverted {
        status: Some(ProcessStatus::Exited(4)),
    });
    match action {
        RollbackAction::Finish { result } => {
            assert_eq!(
                result,
                Err(Error::RevertFailed {
                    activation: ProcessStatus::Exited(3),
                    revert: ProcessStatus::Exited(4),
                })
            );
        },
        other => panic!("expected the rollback to finish, got {:?}", other),
    }
}

/// A dry rollback stops after the diff, successfully.
#[test]
fn test_rollback_dry_run() {
    let args = OsRollbackArgs {
        to: None,
        dry: true,
        ask: true,
        bypass_root_check: false,
        specialisation: None,
        no_specialisation: true,
    };
    let (cfg, state, _action) = args.rollback(true);
    let listing = vec![gen(1, false), gen(2, true)];
    let (state, _action) = rollback_step(
        &cfg,
        state,
        RollbackEvent::Listed { generations: listing, spec_content: None },
    );
    let (_state, action) = rollback_step(&cfg, state, RollbackEvent::DiffFinished { status: None });
    match action {
        RollbackAction::Finish { result } => assert_eq!(result, Ok(1)),
        other => panic!("expected the rollback to finish, got {:?}", other),
    }
}

/// A rollback to a number that no generation carries is terminal.
#[test]
fn test_rollback_unknown_number() {
    let args = OsRollbackArgs {
        to: Some(9),
        dry: false,
        ask: false,
        bypass_root_check: false,
        specialisation: None,
        no_specialisation: true,
    };
    let (cfg, state, _action) = args.rollback(true);
    let listing = vec![gen(1, true)];
    let (_state, action) = rollback_step(
        &cfg,
        state,
        RollbackEvent::Listed { generations: listing, spec_content: None },
    );
    match action {
        RollbackAction::Finish { result } => {
            assert_eq!(result, Err(Error::GenerationNotFound(9)));
        },
        other => panic!("expected the rollback to finish, got {:?}", other),
    }
}

/// The whole-trace form of the compensation law: running a rollback over
/// recorded outcomes where activation fails yields the activation error,
/// and the applied repoints end with the one back at the pre-operation
/// target.
#[test]
fn test_rollback_trace_full_revert() {
    let args = OsRollbackArgs {
        to: None,
        dry: false,
        ask: false,
        bypass_root_check: false,
        specialisation: None,
        no_specialisation: true,
    };
    let (cfg, _state, _action) = args.rollback(true);
    let listing = vec![gen(1, false), gen(2, false), gen(3, true)];
    let events = vec![
        RollbackEvent::DiffFinished { status: None },
        RollbackEvent::Repointed { status: None },
        RollbackEvent::Activated { status: Some(ProcessStatus::Exited(2)) },
        RollbackEvent::Reverted { status: None },
    ];
    let (outcome, applied) = nh::nixos::rollback_trace(&cfg, listing, None, &events);
    assert_eq!(
        outcome,
        Some(Err(Error::ActivationFailed(ProcessStatus::Exited(2))))
    );
    // The repoint to the target, then the repoint back where it started.
    assert_eq!(
        applied,
        vec![
            "/nix/var/nix/profiles/system-2-link".to_string(),
            "/nix/var/nix/profiles/system-3-link".to_string(),
        ]
    );
}

/// The trace of a successful rollback applies exactly one repoint.
#[test]
fn test_rollback_trace_success() {
    let args = OsRollbackArgs {
        to: None,
        dry: false,
        ask: false,
        bypass_root_check: false,
        specialisation: None,
        no_specialisation: true,
    };
    let (cfg, _state, _action) = args.rollback(true);
    let listing = vec![gen(1, false), gen(2, true)];
    let events = vec![
        RollbackEvent::DiffFinished { status: None },
        RollbackEvent::Repointed { status: None },
        RollbackEvent::Activated { status: None },
    ];
    let (outcome, applied) = nh::nixos::rollback_trace(&cfg, listing, None, &events);
    assert_eq!(outcome, Some(Ok(1)));
    assert_eq!(applied, vec!["/nix/var/nix/profiles/system-1-link".to_string()]);
}
