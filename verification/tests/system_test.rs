use nh::error::Error;
use nh::nixos::get_final_attr;
use nh::system::{SystemBuildArgs, SystemManager, SystemRollbackArgs};

fn strings(parts: &[&str]) -> Vec<String> {
    parts.iter().map(|s| s.to_string()).collect()
}

#[test]
fn test_system_build_args_parse() {
    let args = SystemBuildArgs::parse_from(strings(&[
        "nh",
        "--flake",
        "flake",
        "--switch",
        "--dry-activate",
    ]))
    .unwrap();
    assert_eq!(args.flake.as_deref(), Some("flake"));
    assert!(args.switch);
    assert!(args.dry_activate);
}

#[test]
fn test_system_build_args_parse_rejects() {
    assert_eq!(
        SystemBuildArgs::parse_from(strings(&["nh", "--unknown"])),
        Err(Error::InvalidArguments)
    );
    assert_eq!(
        SystemBuildArgs::parse_from(strings(&["nh", "--flake"])),
        Err(Error::InvalidArguments)
    );
}

#[test]
fn test_system_manager_build_command() {
    let args = SystemBuildArgs {
        flake: Some("flake".to_string()),
        switch: true,
        dry_activate: true,
        no_link: false,
        ssh: None,
        install_host: Some("deploy-target".to_string()),
    };
    let c = SystemManager::build_command("/bin/system-manager".to_string(), &args);
    assert_eq!(c.command, "/bin/system-manager");
    assert_eq!(
        c.args,
        strings(&["build", "--flake", "flake", "--switch", "--dry-activate"])
    );
    assert_eq!(c.ssh.as_deref(), Some("deploy-target"));
}

#[test]
fn test_system_manager_refuses_macos() {
    let args = SystemBuildArgs {
        flake: None,
        switch: false,
        dry_activate: false,
        no_link: false,
        ssh: None,
        install_host: None,
    };
    assert!(matches!(SystemManager::build(&args, true), Err(Error::LinuxOnly)));
    assert!(matches!(
        SystemManager::list_generations(None, true),
        Err(Error::LinuxOnly)
    ));
    let rb = SystemRollbackArgs { generation: None, ssh: None, install_host: None };
    assert!(matches!(SystemManager::rollback(&rb, true), Err(Error::LinuxOnly)));
}

#[test]
fn test_system_manager_lookup_outcomes() {
    // The manager binary is looked up on the search path: either it is
    // absent (the usual case here), or the returned command has the
    // documented shape.
    let rb = SystemRollbackArgs {
        generation: Some("12".to_string()),
        ssh: None,
        install_host: None,
    };
    match SystemManager::rollback(&rb, false) {
        Err(e) => assert_eq!(e, Error::SystemManagerNotFound),
        Ok(c) => assert_eq!(c.args, strings(&["rollback", "12"])),
    }
}

#[test]
fn test_get_final_attr() {
    assert_eq!(get_final_attr(true, true), "vmWithBootLoader");
    assert_eq!(get_final_attr(true, false), "vm");
    assert_eq!(get_final_attr(false, false), "toplevel");
    assert_eq!(get_final_attr(false, true), "toplevel");
}
