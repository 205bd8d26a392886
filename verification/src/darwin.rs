//! The darwin rebuild: builds the configuration, diffs it, and on a
//! switch registers it as the system profile before running the darwin
//! rebuild program, whose elevation is decided by the built artifact
//! itself.

use vstd::prelude::*;

use crate::commands::Command;
use crate::error::Error;
use crate::installable::Installable;
use crate::installable::args_of;
use crate::util::platform::ActivationKind;
use crate::util::platform::RebuildAction;
use crate::util::platform::RebuildCfg;
use crate::util::platform::RebuildState;
use crate::util::platform::handle_rebuild_workflow;

verus! {

/// The modes of a darwin rebuild.
#[derive(Debug, Clone, Copy, PartialEq, Eq, Structural)]
pub enum DarwinRebuildVariant {
    Switch,
    Build,
}

/// The flags of a darwin rebuild.
#[derive(Debug)]
pub struct DarwinRebuildArgs {
    pub dry: bool,
    pub ask: bool,
    pub no_nom: bool,
    pub hostname: Option<String>,
}

impl DarwinRebuildArgs {
    /// Starts the darwin rebuild pipeline over a resolved installable.
    /// A switch registers the artifact as the system profile and then
    /// runs the darwin rebuild program (its elevation read from the
    /// artifact); a build stops after the diff, and never asks.
    pub fn rebuild(self, variant: DarwinRebuildVariant, installable: Installable, out_path: String)
        -> (r: (RebuildCfg, RebuildState, RebuildAction))
        ensures
            r.0.dry == self.dry,
            r.0.ask == (self.ask && variant is Switch),
            r.0.build_only == (variant is Build),
            r.0.activate == false,
            r.0.boot == (variant is Switch),
            r.0.target_host is None,
            r.0.out_path@ == out_path@,
            r.0.no_specialisation == true,
            r.0.diff_against is Some && r.0.diff_against->0@ == "/run/current-system"@,
            r.0.skip_compare == false,
            r.0.lenient_diff == false,
            r.0.system_profile@ == "/nix/var/nix/profiles/system"@,
            r.0.activation_kind is DarwinRebuild,
            r.0.backup_extension is None,
            r.1.phase is Building,
            r.2 matches RebuildAction::RunBuild(b) && {
                &&& b.installable@ == installable@
                &&& b.extra_args.deep_view() == seq!["--out-link"@, out_path@]
                &&& b.nom == !self.no_nom
                &&& b.builder is None
                &&& b.message is Some && b.message->0@ == "Building Darwin configuration"@
            },
    {
        let build_only = match variant {
            DarwinRebuildVariant::Build => true,
            DarwinRebuildVariant::Switch => false,
        };
        let cfg = RebuildCfg {
            dry: self.dry,
            ask: self.ask && !build_only,
            build_only,
            activate: false,
            boot: !build_only,
            activation_mode: String::from_str("switch"),
            target_host: None,
            elevate: false,
            out_path,
            no_specialisation: true,
            specialisation: None,
            diff_against: Some(String::from_str(crate::nixos::current_profile_path())),
            skip_compare: false,
            lenient_diff: false,
            system_profile: String::from_str(crate::nixos::system_profile_path()),
            activation_kind: ActivationKind::DarwinRebuild,
            backup_extension: None,
        };
        let empty: Vec<String> = Vec::new();
        proof {
            assert(empty.deep_view() =~= Seq::<Seq<char>>::empty());
            assert(seq!["--out-link"@, cfg.out_path@] + empty.deep_view() =~= seq![
                "--out-link"@,
                cfg.out_path@,
            ]);
        }
        let (state, action) = handle_rebuild_workflow(
            &cfg,
            installable,
            &empty,
            None,
            "Building Darwin configuration",
            self.no_nom,
        );
        (cfg, state, action)
    }
}

/// The flags of an interactive darwin evaluation session.
#[derive(Debug)]
pub struct DarwinReplArgs {
    pub hostname: Option<String>,
}

impl DarwinReplArgs {
    /// The interactive evaluation session over a resolved darwin
    /// installable; store paths carry no tree and are refused.
    pub fn run(installable: &Installable) -> (r: Result<Command, Error>)
        ensures
            installable@ is Store ==> r == Err::<Command, Error>(Error::StoreNotSupported),
            !(installable@ is Store) ==> {
                &&& r is Ok
                &&& r->Ok_0.command@ == "nix"@
                &&& r->Ok_0.args.deep_view() == seq!["repl"@] + args_of(installable@)
                &&& r->Ok_0.show_output == true
            },
    {
        crate::util::platform::run_repl(installable)
    }
}

} // verus!
