use nh::commands::{Build, Command, EnvAction, SudoCaps};
use nh::installable::Installable;

fn strings(parts: &[&str]) -> Vec<String> {
    parts.iter().map(|s| s.to_string()).collect()
}

#[test]
fn test_command_builders() {
    let c = Command::new("nix")
        .arg("eval")
        .args(&strings(&["--raw", "nixpkgs#hello"]))
        .elevate(true)
        .dry(true)
        .show_output(true)
        .ssh(Some("host".to_string()))
        .message("evaluating");
    assert_eq!(c.command, "nix");
    assert_eq!(c.args, strings(&["eval", "--raw", "nixpkgs#hello"]));
    assert!(c.elevate && c.dry && c.show_output);
    assert_eq!(c.ssh.as_deref(), Some("host"));
    assert_eq!(c.message.as_deref(), Some("evaluating"));
}

#[test]
fn test_env_insert_replaces_in_place() {
    let mut c = Command::new("env-test");
    c.env_insert("A".to_string(), EnvAction::Preserve);
    c.env_insert("B".to_string(), EnvAction::SetTo("one".to_string()));
    c.env_insert("A".to_string(), EnvAction::SetTo("two".to_string()));
    assert_eq!(c.env_vars.len(), 2);
    assert_eq!(c.env_vars[0].0, "A");
    assert!(matches!(&c.env_vars[0].1, EnvAction::SetTo(v) if v == "two"));
    assert_eq!(c.env_vars[1].0, "B");
}

#[test]
fn test_with_nh_env_filters_namespace() {
    let ambient = vec![
        ("NH_FLAKE".to_string(), "path".to_string()),
        ("PATH".to_string(), "/usr/bin".to_string()),
        ("NH_NO_CHECKS".to_string(), "1".to_string()),
        ("HOME".to_string(), "/root".to_string()),
    ];
    let c = Command::new("self").with_nh_env(&ambient);
    assert_eq!(c.env_vars.len(), 2);
    assert_eq!(c.env_vars[0].0, "NH_FLAKE");
    assert_eq!(c.env_vars[1].0, "NH_NO_CHECKS");
}

#[test]
fn test_build_sudo_cmd_linux() {
    let caps = SudoCaps { macos: false, has_preserve_env: true, askpass: None };
    let c = Command::new("nix")
        .elevate(true)
        .with_nix_env(Some("/home/u".to_string()), Some("u".to_string()));
    let inv = c.build_sudo_cmd(&caps);
    assert_eq!(inv.program, "sudo");
    // The preserved names are enumerated as one flag value, then the
    // explicitly set variables are re-stated after an `env` word.
    assert_eq!(
        inv.args,
        strings(&[
            "--preserve-env=PATH,NIX_CONFIG,NIX_PATH,NIX_REMOTE,NIX_SSL_CERT_FILE,NIX_USER_CONF_FILES",
            "env",
            "HOME=/home/u",
            "USER=u",
        ])
    );
    assert!(inv.env.is_empty());
}

#[test]
fn test_build_sudo_cmd_macos_and_askpass() {
    let caps = SudoCaps {
        macos: true,
        has_preserve_env: true,
        askpass: Some("/usr/bin/askpass".to_string()),
    };
    let c = Command::new("nix").elevate(true).preserve_envs(&strings(&["PATH"]));
    let inv = c.build_sudo_cmd(&caps);
    assert_eq!(inv.program, "sudo");
    assert_eq!(
        inv.args,
        strings(&["--set-home", "--preserve-env=PATH", "env", "-A"])
    );
    assert_eq!(inv.env.len(), 1);
    assert_eq!(inv.env[0].0, "SUDO_ASKPASS");

    // Without the preserve flag available, only the home normalisation.
    let bare = SudoCaps { macos: true, has_preserve_env: false, askpass: None };
    let c = Command::new("nix").elevate(true).preserve_envs(&strings(&["PATH"]));
    let inv = c.build_sudo_cmd(&bare);
    assert_eq!(inv.args, strings(&["--set-home"]));
}

#[test]
fn test_to_invocation_elevated() {
    let caps = SudoCaps { macos: false, has_preserve_env: true, askpass: None };
    let c = Command::new("ln").arg("-sfn").arg("/link").arg("/profile").elevate(true);
    let inv = c.to_invocation(&caps);
    assert_eq!(inv.program, "sudo");
    assert_eq!(inv.args, strings(&["ln", "-sfn", "/link", "/profile"]));

    let plain = Command::new("ln").arg("-sfn").arg("/link").arg("/profile");
    let inv = plain.to_invocation(&caps);
    assert_eq!(inv.program, "ln");
    assert_eq!(inv.args, strings(&["-sfn", "/link", "/profile"]));
}

#[test]
fn test_self_elevate_cmd_shape() {
    let caps = SudoCaps { macos: false, has_preserve_env: true, askpass: None };
    let ambient = vec![("NH_FLAKE".to_string(), "ref".to_string())];
    let inv = Command::self_elevate_cmd(
        "/usr/bin/deploy-tool",
        &strings(&["os", "switch"]),
        None,
        None,
        &ambient,
        &caps,
    );
    assert_eq!(inv.program, "sudo");
    assert_eq!(
        inv.args,
        strings(&[
            "--preserve-env=PATH,NIX_CONFIG,NIX_PATH,NIX_REMOTE,NIX_SSL_CERT_FILE,NIX_USER_CONF_FILES",
            "env",
            "NH_FLAKE=ref",
            "/usr/bin/deploy-tool",
            "os",
            "switch",
        ])
    );
}

#[test]
fn test_build_invocation_wire_contract() {
    let b = Build::new(Installable::Flake {
        reference: "ref".to_string(),
        attribute: strings(&["a"]),
    })
    .extra_arg("--out-link".to_string())
    .extra_arg("/tmp/result".to_string())
    .builder(Some("builder-host".to_string()))
    .message("Building")
    .nom(true);
    let inv = b.to_invocation();
    assert_eq!(inv.program, "nix");
    assert_eq!(
        inv.args,
        strings(&[
            "build",
            "ref#a",
            "--builders",
            "ssh://builder-host - - - 100",
            "--out-link",
            "/tmp/result",
            "--log-format",
            "internal-json",
            "--verbose",
        ])
    );

    let plain = Build::new(Installable::Store { path: "/nix/store/x".to_string() }).nom(false);
    let inv = plain.to_invocation();
    assert_eq!(inv.args, strings(&["build", "/nix/store/x"]));
}

#[test]
fn test_removed_variable_is_neither_preserved_nor_set() {
    let caps = SudoCaps { macos: false, has_preserve_env: true, askpass: None };
    let mut c = Command::new("nix").elevate(true);
    c.env_insert("KEEP".to_string(), EnvAction::Preserve);
    c.env_insert("GONE".to_string(), EnvAction::Remove);
    c.env_insert("SET".to_string(), EnvAction::SetTo("v".to_string()));
    let inv = c.build_sudo_cmd(&caps);
    assert_eq!(
        inv.args,
        vec!["--preserve-env=KEEP", "env", "SET=v"]
            .into_iter()
            .map(String::from)
            .collect::<Vec<String>>()
    );
}
