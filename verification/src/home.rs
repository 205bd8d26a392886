//! The user-environment rebuild: resolves a configuration against the
//! user-environment tree, builds its activation package and runs it.
//! Its diff step is lenient — a diff failure is logged, never fatal —
//! which distinguishes it from the system workflow.

use vstd::prelude::*;

use crate::commands::Command;
use crate::error::Error;
use crate::installable::Installable;
use crate::installable::args_of;
use crate::util::platform::ActivationKind;
use crate::util::platform::RebuildAction;
use crate::util::platform::RebuildCfg;
use crate::util::platform::RebuildState;
use crate::util::platform::extend_installable_for_platform;
use crate::util::platform::extend_outcome_ok;
use crate::util::platform::handle_rebuild_workflow;

verus! {

/// The modes of a user-environment rebuild.
#[derive(Debug, Clone, Copy, PartialEq, Eq, Structural)]
pub enum HomeRebuildVariant {
    Build,
    Switch,
}

/// The flags of a user-environment rebuild.
#[derive(Debug)]
pub struct HomeRebuildArgs {
    pub dry: bool,
    pub ask: bool,
    pub no_nom: bool,
    pub configuration: Option<String>,
    pub specialisation: Option<String>,
    pub no_specialisation: bool,
    pub backup_extension: Option<String>,
    pub diff_never: bool,
}

/// Resolves the attribute path of a user-environment configuration: the
/// user-environment tree, the first candidate the probes found, and —
/// when a concrete derivation is required — the activation package
/// beneath it.
pub fn toplevel_for(
    installable: Installable,
    push_drv: bool,
    configuration_name: Option<String>,
    probe_results: &Vec<bool>,
    username: &str,
    hostname: &str,
) -> (r: Result<Installable, Error>)
    ensures
        extend_outcome_ok(
            installable,
            "homeConfigurations"@,
            seq!["config"@, "home"@, "activationPackage"@],
            configuration_name,
            push_drv,
            probe_results@,
            username@,
            hostname@,
            r,
        ),
{
    let mut extra: Vec<String> = Vec::new();
    extra.push(String::from_str("config"));
    extra.push(String::from_str("home"));
    extra.push(String::from_str("activationPackage"));
    proof {
        assert(extra.deep_view() =~= seq!["config"@, "home"@, "activationPackage"@]);
    }
    extend_installable_for_platform(
        installable,
        "homeConfigurations",
        &extra,
        configuration_name,
        push_drv,
        probe_results,
        username,
        hostname,
    )
}

impl HomeRebuildArgs {
    /// Starts the user-environment rebuild pipeline over a resolved
    /// installable.  There is no boot registration and no remote host;
    /// the diff runs against the previous generation when one exists
    /// (none on a fresh install) and its failure is never fatal; the
    /// build-only variant stops after the diff.
    pub fn rebuild(
        self,
        variant: HomeRebuildVariant,
        installable: Installable,
        out_path: String,
        prev_generation: Option<String>,
    ) -> (r: (RebuildCfg, RebuildState, RebuildAction))
        ensures
            r.0.dry == self.dry,
            r.0.ask == self.ask,
            r.0.build_only == (variant is Build),
            r.0.activate == (variant is Switch),
            r.0.boot == false,
            r.0.target_host is None,
            r.0.elevate == false,
            r.0.out_path@ == out_path@,
            r.0.no_specialisation == self.no_specialisation,
            r.0.specialisation == self.specialisation,
            r.0.diff_against == prev_generation,
            r.0.skip_compare == self.diff_never,
            r.0.lenient_diff == true,
            r.0.activation_kind is HomeActivate,
            r.0.backup_extension == self.backup_extension,
            r.1.phase is Building,
            r.2 matches RebuildAction::RunBuild(b) && {
                &&& b.installable@ == installable@
                &&& b.extra_args.deep_view() == seq!["--out-link"@, out_path@]
                &&& b.nom == !self.no_nom
                &&& b.builder is None
                &&& b.message is Some && b.message->0@
                    == "Building Home-Manager configuration"@
            },
    {
        let build_only = match variant {
            HomeRebuildVariant::Build => true,
            HomeRebuildVariant::Switch => false,
        };
        let cfg = RebuildCfg {
            dry: self.dry,
            ask: self.ask,
            build_only,
            activate: !build_only,
            boot: false,
            activation_mode: String::from_str("switch"),
            target_host: None,
            elevate: false,
            out_path,
            no_specialisation: self.no_specialisation,
            specialisation: self.specialisation,
            diff_against: prev_generation,
            skip_compare: self.diff_never,
            lenient_diff: true,
            system_profile: String::new(),
            activation_kind: ActivationKind::HomeActivate,
            backup_extension: self.backup_extension,
        };
        let empty: Vec<String> = Vec::new();
        proof {
            assert(empty.deep_view() =~= Seq::<Seq<char>>::empty());
            assert(seq!["--out-link"@, cfg.out_path@] + empty.deep_view() =~= seq![
                "--out-link"@,
                cfg.out_path@,
            ]);
        }
        let (state, action) = handle_rebuild_workflow(
            &cfg,
            installable,
            &empty,
            None,
            "Building Home-Manager configuration",
            self.no_nom,
        );
        (cfg, state, action)
    }
}

/// The flags of an interactive user-environment evaluation session.
#[derive(Debug)]
pub struct HomeReplArgs {
    pub configuration: Option<String>,
}

impl HomeReplArgs {
    /// The interactive evaluation session over a resolved
    /// user-environment installable; store paths carry no tree and are
    /// refused.
    pub fn run(installable: &Installable) -> (r: Result<Command, Error>)
        ensures
            installable@ is Store ==> r == Err::<Command, Error>(Error::StoreNotSupported),
            !(installable@ is Store) ==> {
                &&& r is Ok
                &&& r->Ok_0.command@ == "nix"@
                &&& r->Ok_0.args.deep_view() == seq!["repl"@] + args_of(installable@)
                &&& r->Ok_0.show_output == true
            },
    {
        crate::util::platform::run_repl(installable)
    }
}

} // verus!
