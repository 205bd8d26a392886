//! The system rebuild and rollback orchestrators.
//!
//! A rebuild resolves an installable, builds it, diffs it against the
//! running system, asks for confirmation, activates it and registers it
//! as the boot default, in that order.  A rollback selects an older
//! generation, repoints the system profile at it and activates it; when
//! that activation fails, the profile is repointed back to the recorded
//! prior generation, so the profile never rests on a generation whose
//! activation did not succeed.

use vstd::prelude::*;

use crate::commands::Command;
use crate::error::Error;
use crate::error::ProcessStatus;
use crate::generations::GenerationInfo;
use crate::generations::at_most_one_current;
use crate::generations::current_number_of;
use crate::generations::find_generation_by_number;
use crate::generations::find_previous_generation;
use crate::generations::has_current;
use crate::generations::has_older_than;
use crate::generations::unique_numbers;
use crate::util::platform::ActivationKind;
use crate::util::platform::RebuildAction;
use crate::util::platform::RebuildCfg;
use crate::util::platform::RebuildState;
use crate::util::platform::handle_rebuild_workflow;
use crate::util::platform::process_specialisation;

verus! {

/// The path of the system profile.
pub fn system_profile_path() -> (r: &'static str)
    ensures
        r@ == "/nix/var/nix/profiles/system"@,
{
    "/nix/var/nix/profiles/system"
}

/// The path of the currently active system configuration.
pub fn current_profile_path() -> (r: &'static str)
    ensures
        r@ == "/run/current-system"@,
{
    "/run/current-system"
}

/// Where the running system records its specialisation.
pub fn spec_location_path() -> (r: &'static str)
    ensures
        r@ == "/etc/specialisation"@,
{
    "/etc/specialisation"
}

/// The attribute a build resolves to: the VM image (with or without a
/// bootloader) for VM builds, the top-level configuration otherwise.
pub fn get_final_attr(build_vm: bool, with_bootloader: bool) -> (r: String)
    ensures
        build_vm && with_bootloader ==> r@ == "vmWithBootLoader"@,
        build_vm && !with_bootloader ==> r@ == "vm"@,
        !build_vm ==> r@ == "toplevel"@,
{
    if build_vm && with_bootloader {
        String::from_str("vmWithBootLoader")
    } else if build_vm {
        String::from_str("vm")
    } else {
        String::from_str("toplevel")
    }
}

/// The modes of a system rebuild: build only, build and activate and
/// make the boot default, build and make the boot default, build and
/// activate, or build a VM image.
#[derive(Debug, Clone, Copy, PartialEq, Eq, Structural)]
pub enum OsRebuildVariant {
    Build,
    Switch,
    Boot,
    Test,
    BuildVm,
}

/// The flags of a system rebuild.
#[derive(Debug)]
pub struct OsRebuildArgs {
    pub dry: bool,
    pub ask: bool,
    pub no_nom: bool,
    pub hostname: Option<String>,
    pub specialisation: Option<String>,
    pub no_specialisation: bool,
    pub target_host: Option<String>,
    pub build_host: Option<String>,
    pub bypass_root_check: bool,
}

/// The attribute path beneath a configuration that a system rebuild
/// evaluates: the system build products, ending in the final attribute
/// (an explicit one, or the variant's own).
pub fn os_extra_path(variant: OsRebuildVariant, final_attr: Option<String>) -> (r: Vec<String>)
    ensures
        r.deep_view() == seq!["config"@, "system"@, "build"@, match final_attr {
            Some(a) => a@,
            None => if variant is BuildVm {
                "vm"@
            } else {
                "toplevel"@
            },
        }],
{
    let mut out: Vec<String> = Vec::new();
    out.push(String::from_str("config"));
    out.push(String::from_str("system"));
    out.push(String::from_str("build"));
    match final_attr {
        Some(a) => {
            out.push(a);
        },
        None => {
            match variant {
                OsRebuildVariant::BuildVm => {
                    out.push(String::from_str("vm"));
                },
                _ => {
                    out.push(String::from_str("toplevel"));
                },
            }
        },
    }
    proof {
        assert(out.deep_view() =~= seq!["config"@, "system"@, "build"@, match final_attr {
            Some(a) => a@,
            None => if variant is BuildVm {
                "vm"@
            } else {
                "toplevel"@
            },
        }]);
    }
    out
}

impl OsRebuildArgs {
    /// Starts the system rebuild pipeline over a resolved installable:
    /// the variant decides whether the result is activated and whether
    /// it becomes the boot default; a dry run or a pure build stops
    /// after the diff.  Elevation, the output path and the hostname
    /// comparison are settled by the caller beforehand.
    pub fn rebuild_with_installable(
        self,
        variant: OsRebuildVariant,
        installable: crate::installable::Installable,
        elevate: bool,
        out_path: String,
        hostname_mismatch: bool,
        message: &str,
    ) -> (r: (RebuildCfg, RebuildState, RebuildAction))
        ensures
            r.0.dry == self.dry,
            r.0.ask == self.ask,
            r.0.build_only == (variant is Build || variant is BuildVm),
            r.0.activate == (variant is Test || variant is Switch),
            r.0.boot == (variant is Boot || variant is Switch),
            r.0.activation_mode@ == "test"@,
            r.0.target_host == self.target_host,
            r.0.elevate == elevate,
            r.0.out_path@ == out_path@,
            r.0.no_specialisation == self.no_specialisation,
            r.0.specialisation == self.specialisation,
            r.0.diff_against is Some && r.0.diff_against->0@ == "/run/current-system"@,
            r.0.skip_compare == hostname_mismatch,
            r.0.lenient_diff == false,
            r.0.system_profile@ == "/nix/var/nix/profiles/system"@,
            r.0.activation_kind is SwitchToConfiguration,
            r.0.backup_extension is None,
            r.1.phase is Building,
            r.2 matches RebuildAction::RunBuild(b) && {
                &&& b.installable@ == installable@
                &&& b.extra_args.deep_view() == seq!["--out-link"@, out_path@]
                &&& b.nom == !self.no_nom
                &&& b.builder == self.build_host
                &&& b.message is Some && b.message->0@ == message@
            },
    {
        let build_only = match variant {
            OsRebuildVariant::Build => true,
            OsRebuildVariant::BuildVm => true,
            _ => false,
        };
        let activate = match variant {
            OsRebuildVariant::Test => true,
            OsRebuildVariant::Switch => true,
            _ => false,
        };
        let boot = match variant {
            OsRebuildVariant::Boot => true,
            OsRebuildVariant::Switch => true,
            _ => false,
        };
        let cfg = RebuildCfg {
            dry: self.dry,
            ask: self.ask,
            build_only,
            activate,
            boot,
            activation_mode: String::from_str("test"),
            target_host: self.target_host,
            elevate,
            out_path,
            no_specialisation: self.no_specialisation,
            specialisation: self.specialisation,
            diff_against: Some(String::from_str(current_profile_path())),
            skip_compare: hostname_mismatch,
            lenient_diff: false,
            system_profile: String::from_str(system_profile_path()),
            activation_kind: ActivationKind::SwitchToConfiguration,
            backup_extension: None,
        };
        let empty: Vec<String> = Vec::new();
        proof {
            assert(empty.deep_view() =~= Seq::<Seq<char>>::empty());
            assert(seq!["--out-link"@, cfg.out_path@] + empty.deep_view() =~= seq![
                "--out-link"@,
                cfg.out_path@,
            ]);
        }
        let (state, action) = handle_rebuild_workflow(
            &cfg,
            installable,
            &empty,
            clone_opt(&self.build_host),
            message,
            self.no_nom,
        );
        (cfg, state, action)
    }
}

/// Copies an optional string with its exact content.
fn clone_opt(o: &Option<String>) -> (r: Option<String>)
    ensures
        r == *o,
{
    match o {
        Some(s) => Some(s.clone()),
        None => None,
    }
}

/// The flags of an interactive system evaluation session.
#[derive(Debug)]
pub struct OsReplArgs {
    pub hostname: Option<String>,
}

impl OsReplArgs {
    /// The interactive evaluation session over a resolved system
    /// installable; store paths carry no tree and are refused.
    pub fn run_with_installable(installable: &crate::installable::Installable) -> (r: Result<
        Command,
        Error,
    >)
        ensures
            installable@ is Store ==> r == Err::<Command, Error>(Error::StoreNotSupported),
            !(installable@ is Store) ==> {
                &&& r is Ok
                &&& r->Ok_0.command@ == "nix"@
                &&& r->Ok_0.args.deep_view() == seq!["repl"@] + crate::installable::args_of(
                    installable@,
                )
                &&& r->Ok_0.show_output == true
            },
    {
        crate::util::platform::run_repl(installable)
    }
}

/// The flags of a system rollback.
#[derive(Debug)]
pub struct OsRollbackArgs {
    pub to: Option<u64>,
    pub dry: bool,
    pub ask: bool,
    pub bypass_root_check: bool,
    pub specialisation: Option<String>,
    pub no_specialisation: bool,
}

/// Everything a rollback decides by.
#[derive(Debug)]
pub struct RollbackCfg {
    pub to: Option<u64>,
    pub dry: bool,
    pub ask: bool,
    pub elevate: bool,
    pub specialisation: Option<String>,
    pub no_specialisation: bool,
    pub current_profile: String,
    pub system_profile: String,
}

/// Where a rollback stands.
#[derive(Debug, Clone, Copy, PartialEq, Eq, Structural)]
pub enum RollbackPhase {
    Selecting,
    Diffing,
    Confirming,
    Repointing,
    Activating,
    Reverting,
    Done,
}

/// The rollback's state between steps.  From selection on it records the
/// chosen target and the link of the generation that was current before
/// any repoint — the pre-operation resolved target of the profile, kept
/// exactly so a failed activation can be compensated.
pub struct RollbackState {
    pub phase: RollbackPhase,
    pub target_number: u64,
    pub target_link: String,
    pub prior_link: Option<String>,
    pub target_profile: String,
    pub activation_status: Option<ProcessStatus>,
    pub listing: Ghost<Seq<GenerationInfo>>,
}

/// What the driver reports back: the outcome of each external step.  A
/// `status` of `None` means the step succeeded.
#[derive(Debug)]
pub enum RollbackEvent {
    Listed { generations: Vec<GenerationInfo>, spec_content: Option<String> },
    DiffFinished { status: Option<ProcessStatus> },
    Confirmed { answer: Option<bool> },
    Repointed { status: Option<ProcessStatus> },
    Activated { status: Option<ProcessStatus> },
    Reverted { status: Option<ProcessStatus> },
}

/// What the driver must do next.
#[derive(Debug)]
pub enum RollbackAction {
    /// Scan the profile directory and list its generations.
    ListGenerations,
    RunDiff(Command),
    AskConfirmation,
    /// Atomically repoint the profile symlink at the target generation.
    Repoint(Command),
    RunActivate(Command),
    /// Atomically repoint the profile symlink back at the prior
    /// generation.
    Revert(Command),
    Finish { result: Result<u64, Error> },
    /// The event does not belong to the current phase; nothing happens.
    Ignored,
}

/// The state invariant from selection on: the target stands in the
/// listing under its number and link, and the recorded prior link is the
/// link of the (unique) generation the profile pointed at before the
/// operation; in the compensation phase the failed activation's status
/// is recorded.
pub open spec fn rollback_wf(st: RollbackState) -> bool {
    match st.phase {
        RollbackPhase::Selecting => true,
        RollbackPhase::Done => true,
        _ => {
            &&& exists|i: int|
                {
                    &&& 0 <= i < st.listing@.len()
                    &&& (#[trigger] st.listing@[i]).number == st.target_number
                    &&& st.listing@[i].path@ == st.target_link@
                }
            &&& match st.prior_link {
                Some(p) => exists|i: int|
                    {
                        &&& 0 <= i < st.listing@.len()
                        &&& (#[trigger] st.listing@[i]).current
                        &&& st.listing@[i].path@ == p@
                    },
                None => true,
            }
            &&& (st.phase is Reverting ==> st.activation_status is Some && st.prior_link is Some)
        },
    }
}

impl OsRollbackArgs {
    /// Starts a rollback: the profile's generations are listed first.
    /// Elevation is settled by the caller beforehand.
    pub fn rollback(self, elevate: bool) -> (r: (RollbackCfg, RollbackState, RollbackAction))
        ensures
            r.0.to == self.to,
            r.0.dry == self.dry,
            r.0.ask == self.ask,
            r.0.elevate == elevate,
            r.0.specialisation == self.specialisation,
            r.0.no_specialisation == self.no_specialisation,
            r.0.current_profile@ == "/run/current-system"@,
            r.0.system_profile@ == "/nix/var/nix/profiles/system"@,
            r.1.phase is Selecting,
            r.2 is ListGenerations,
            rollback_wf(r.1),
    {
        let cfg = RollbackCfg {
            to: self.to,
            dry: self.dry,
            ask: self.ask,
            elevate,
            specialisation: self.specialisation,
            no_specialisation: self.no_specialisation,
            current_profile: String::from_str(current_profile_path()),
            system_profile: String::from_str(system_profile_path()),
        };
        let state = RollbackState {
            phase: RollbackPhase::Selecting,
            target_number: 0,
            target_link: String::new(),
            prior_link: None,
            target_profile: String::new(),
            activation_status: None,
            listing: Ghost(Seq::empty()),
        };
        (cfg, state, RollbackAction::ListGenerations)
    }
}

/// The repoint of the system profile at a generation link: an atomic,
/// all-or-nothing symlink replacement, elevated as required.
pub open spec fn repoint_cmd_ok(cfg: RollbackCfg, c: Command, link: Seq<char>) -> bool {
    &&& c.command@ == "ln"@
    &&& c.args.deep_view() == seq!["-sfn"@, link, cfg.system_profile@]
    &&& c.elevate == cfg.elevate
    &&& c.dry == false
    &&& c.ssh is None
}

/// The activation of the rollback target in switch mode, elevated as
/// required.
pub open spec fn rollback_activate_cmd_ok(cfg: RollbackCfg, c: Command, target: Seq<char>) -> bool {
    &&& c.command@ == target + seq!['/'] + "bin"@ + seq!['/'] + "switch-to-configuration"@
    &&& c.args.deep_view() == seq!["switch"@]
    &&& c.elevate == cfg.elevate
    &&& c.ssh is None
}

/// After the diff: a dry run stops successfully, confirmation is asked
/// when requested, else the profile is repointed.
pub open spec fn rollback_gate_ok(
    cfg: RollbackCfg,
    prev: RollbackState,
    st: RollbackState,
    a: RollbackAction,
) -> bool {
    if cfg.dry {
        &&& st.phase is Done
        &&& a == (RollbackAction::Finish { result: Ok::<u64, Error>(prev.target_number) })
    } else if cfg.ask {
        &&& st.phase is Confirming
        &&& a is AskConfirmation
        &&& unchanged_selection(prev, st)
    } else {
        repoint_transition_ok(cfg, prev, st, a)
    }
}

/// The selection fields carry over from one state to the next.
pub open spec fn unchanged_selection(prev: RollbackState, st: RollbackState) -> bool {
    &&& st.target_number == prev.target_number
    &&& st.target_link@ == prev.target_link@
    &&& st.prior_link is Some <==> prev.prior_link is Some
    &&& st.prior_link is Some ==> st.prior_link->0@ == prev.prior_link->0@
    &&& st.target_profile@ == prev.target_profile@
    &&& st.listing@ == prev.listing@
}

/// The transition into the repoint: the profile symlink is replaced to
/// point at the target generation's link.
pub open spec fn repoint_transition_ok(
    cfg: RollbackCfg,
    prev: RollbackState,
    st: RollbackState,
    a: RollbackAction,
) -> bool {
    &&& st.phase is Repointing
    &&& unchanged_selection(prev, st)
    &&& a matches RollbackAction::Repoint(c) && repoint_cmd_ok(cfg, c, prev.target_link@)
}

/// Advances a rollback by one step.
///
/// The compensating action is pinned here: when activation of the
/// repointed target fails and the prior generation is known, the next
/// action repoints the profile symlink back at the recorded prior link —
/// the profile's pre-operation target — and the surfaced error is the
/// activation failure itself (or, if the revert also fails, an error
/// carrying both statuses, never hiding the activation failure).
pub fn rollback_step(cfg: &RollbackCfg, state: RollbackState, event: RollbackEvent) -> (r: (
    RollbackState,
    RollbackAction,
))
    requires
        rollback_wf(state),
        state.phase is Selecting && event is Listed ==> unique_numbers(
            event->Listed_generations@,
        ) && at_most_one_current(event->Listed_generations@),
    ensures
        rollback_wf(r.0),
        state.phase is Selecting ==> match event {
            RollbackEvent::Listed { generations, spec_content } => {
                let gens = generations@;
                match cfg.to {
                    Some(n) => {
                        if exists|i: int|
                            0 <= i < gens.len() && (#[trigger] gens[i]).number == n {
                            selected_ok(*cfg, r.0, r.1, gens, spec_content) && r.0.target_number
                                == n
                        } else {
                            r.0.phase is Done && r.1 == (RollbackAction::Finish {
                                result: Err::<u64, Error>(Error::GenerationNotFound(n)),
                            })
                        }
                    },
                    None => {
                        if gens.len() == 0 {
                            r.0.phase is Done && r.1 == (RollbackAction::Finish {
                                result: Err::<u64, Error>(Error::NoGenerations),
                            })
                        } else if !has_current(gens) {
                            r.0.phase is Done && r.1 == (RollbackAction::Finish {
                                result: Err::<u64, Error>(Error::NoCurrentGeneration),
                            })
                        } else if !has_older_than(gens, current_number_of(gens)) {
                            r.0.phase is Done && r.1 == (RollbackAction::Finish {
                                result: Err::<u64, Error>(Error::NoOlderGeneration),
                            })
                        } else {
                            selected_ok(*cfg, r.0, r.1, gens, spec_content) && r.0.target_number
                                < current_number_of(gens) && (forall|i: int|
                                0 <= i < gens.len() && (#[trigger] gens[i]).number
                                    < current_number_of(gens) ==> gens[i].number
                                    <= r.0.target_number)
                        }
                    },
                }
            },
            _ => r.1 is Ignored && r.0 == state,
        },
        state.phase is Diffing ==> match event {
            RollbackEvent::DiffFinished { status } => match status {
                Some(st) => r.0.phase is Done && r.1 == (RollbackAction::Finish {
                    result: Err::<u64, Error>(Error::CommandFailed(st)),
                }),
                None => rollback_gate_ok(*cfg, state, r.0, r.1),
            },
            _ => r.1 is Ignored && r.0 == state,
        },
        state.phase is Confirming ==> match event {
            RollbackEvent::Confirmed { answer } => match answer {
                Some(true) => repoint_transition_ok(*cfg, state, r.0, r.1),
                Some(false) => r.0.phase is Done && r.1 == (RollbackAction::Finish {
                    result: Err::<u64, Error>(Error::UserRejected),
                }),
                None => r.0.phase is Done && r.1 == (RollbackAction::Finish {
                    result: Err::<u64, Error>(Error::PromptFailed),
                }),
            },
            _ => r.1 is Ignored && r.0 == state,
        },
        state.phase is Repointing ==> match event {
            RollbackEvent::Repointed { status } => match status {
                Some(st) => r.0.phase is Done && r.1 == (RollbackAction::Finish {
                    result: Err::<u64, Error>(Error::CommandFailed(st)),
                }),
                None => {
                    &&& r.0.phase is Activating
                    &&& unchanged_selection(state, r.0)
                    &&& r.1 matches RollbackAction::RunActivate(c) && rollback_activate_cmd_ok(
                        *cfg,
                        c,
                        state.target_profile@,
                    )
                },
            },
            _ => r.1 is Ignored && r.0 == state,
        },
        state.phase is Activating ==> match event {
            RollbackEvent::Activated { status } => match status {
                None => r.0.phase is Done && r.1 == (RollbackAction::Finish {
                    result: Ok::<u64, Error>(state.target_number),
                }),
                Some(st) => match state.prior_link {
                    Some(p) => {
                        &&& r.0.phase is Reverting
                        &&& unchanged_selection(state, r.0)
                        &&& r.0.activation_status == Some(st)
                        &&& r.1 matches RollbackAction::Revert(c) && repoint_cmd_ok(*cfg, c, p@)
                    },
                    None => r.0.phase is Done && r.1 == (RollbackAction::Finish {
                        result: Err::<u64, Error>(Error::ActivationFailed(st)),
                    }),
                },
            },
            _ => r.1 is Ignored && r.0 == state,
        },
        state.phase is Reverting ==> match event {
            RollbackEvent::Reverted { status } => match status {
                None => r.0.phase is Done && r.1 == (RollbackAction::Finish {
                    result: Err::<u64, Error>(
                        Error::ActivationFailed(state.activation_status->0),
                    ),
                }),
                Some(rst) => r.0.phase is Done && r.1 == (RollbackAction::Finish {
                    result: Err::<u64, Error>(
                        Error::RevertFailed {
                            activation: state.activation_status->0,
                            revert: rst,
                        },
                    ),
                }),
            },
            _ => r.1 is Ignored && r.0 == state,
        },
        state.phase is Done ==> r.1 is Ignored && r.0 == state,
{
    match state.phase {
        RollbackPhase::Selecting => match event {
            RollbackEvent::Listed { generations, spec_content } => {
                let selection = match cfg.to {
                    Some(n) => find_generation_by_number(&generations, n),
                    None => find_previous_generation(&generations),
                };
                match selection {
                    Err(e) => rollback_done(RollbackAction::Finish { result: Err(e) }),
                    Ok(target) => {
                        let ghost gens = generations@;
                        let ghost tnum = target.number;
                        let ghost tpath = target.path@;
                        proof {
                            assert(exists|i: int|
                                0 <= i < gens.len() && #[trigger] gens[i] == target);
                            let i = choose|i: int|
                                0 <= i < gens.len() && #[trigger] gens[i] == target;
                            assert(gens[i].number == tnum && gens[i].path@ == tpath);
                        }
                        let prior_link = current_link(&generations);
                        let sel = process_specialisation(
                            cfg.no_specialisation,
                            clone_opt(&cfg.specialisation),
                            spec_content,
                        );
                        let holder = crate::util::PlainPath { path: target.path.clone() };
                        let target_profile = crate::util::platform::get_target_profile(
                            &holder,
                            &sel,
                        );
                        let diff = crate::util::platform::compare_configurations(
                            cfg.current_profile.as_str(),
                            target.path.as_str(),
                            "Comparing changes",
                        );
                        let st = RollbackState {
                            phase: RollbackPhase::Diffing,
                            target_number: target.number,
                            target_link: target.path,
                            prior_link,
                            target_profile,
                            activation_status: None,
                            listing: Ghost(generations@),
                        };
                        proof {
                            let i = choose|i: int|
                                0 <= i < gens.len() && #[trigger] gens[i] == target;
                            assert(st.listing@ == gens);
                            assert(st.listing@[i].number == st.target_number);
                            assert(st.listing@[i].path@ == st.target_link@);
                            assert(rollback_wf(st));
                        }
                        (st, RollbackAction::RunDiff(diff))
                    },
                }
            },
            _ => (state, RollbackAction::Ignored),
        },
        RollbackPhase::Diffing => match event {
            RollbackEvent::DiffFinished { status } => match status {
                Some(st) => rollback_done(
                    RollbackAction::Finish { result: Err(Error::CommandFailed(st)) },
                ),
                None => {
                    if cfg.dry {
                        let n = state.target_number;
                        rollback_done(RollbackAction::Finish { result: Ok(n) })
                    } else if cfg.ask {
                        let st = RollbackState { phase: RollbackPhase::Confirming, ..state };
                        proof {
                            assert(st.target_number == state.target_number);
                            assert(st.listing@ == state.listing@);
                            assert(st.target_link@ == state.target_link@);
                            assert(rollback_wf(state));
                            assert(rollback_wf(st));
                        }
                        (st, RollbackAction::AskConfirmation)
                    } else {
                        repoint_transition(cfg, state)
                    }
                },
            },
            _ => (state, RollbackAction::Ignored),
        },
        RollbackPhase::Confirming => match event {
            RollbackEvent::Confirmed { answer } => match answer {
                Some(true) => repoint_transition(cfg, state),
                Some(false) => rollback_done(
                    RollbackAction::Finish { result: Err(Error::UserRejected) },
                ),
                None => rollback_done(RollbackAction::Finish { result: Err(Error::PromptFailed) }),
            },
            _ => (state, RollbackAction::Ignored),
        },
        RollbackPhase::Repointing => match event {
            RollbackEvent::Repointed { status } => match status {
                Some(st) => rollback_done(
                    RollbackAction::Finish { result: Err(Error::CommandFailed(st)) },
                ),
                None => {
                    let program = crate::util::path_join(state.target_profile.as_str(), "bin");
                    let program = crate::util::path_join(
                        program.as_str(),
                        "switch-to-configuration",
                    );
                    proof {
                        assert(program@ =~= state.target_profile@ + seq!['/'] + "bin"@
                            + seq!['/'] + "switch-to-configuration"@);
                    }
                    let c = Command::new(program.as_str()).arg("switch").elevate(cfg.elevate);
                    proof {
                        assert(c.args.deep_view() =~= seq!["switch"@]);
                    }
                    let st = RollbackState { phase: RollbackPhase::Activating, ..state };
                    proof {
                        assert(st.target_number == state.target_number);
                        assert(st.listing@ == state.listing@);
                        assert(st.target_link@ == state.target_link@);
                        assert(rollback_wf(state));
                        assert(rollback_wf(st));
                    }
                    (st, RollbackAction::RunActivate(c))
                },
            },
            _ => (state, RollbackAction::Ignored),
        },
        RollbackPhase::Activating => match event {
            RollbackEvent::Activated { status } => match status {
                None => {
                    let n = state.target_number;
                    rollback_done(RollbackAction::Finish { result: Ok(n) })
                },
                Some(st) => match &state.prior_link {
                    Some(p) => {
                        let c = repoint_command(cfg, p, "Rolling back system profile");
                        let st2 = RollbackState {
                            phase: RollbackPhase::Reverting,
                            activation_status: Some(st),
                            ..state
                        };
                        proof {
                            assert(st2.target_number == state.target_number);
                            assert(st2.listing@ == state.listing@);
                            assert(st2.target_link@ == state.target_link@);
                            assert(rollback_wf(state));
                            assert(rollback_wf(st2));
                        }
                        (st2, RollbackAction::Revert(c))
                    },
                    None => rollback_done(
                        RollbackAction::Finish { result: Err(Error::ActivationFailed(st)) },
                    ),
                },
            },
            _ => (state, RollbackAction::Ignored),
        },
        RollbackPhase::Reverting => match event {
            RollbackEvent::Reverted { status } => match status {
                None => {
                    let a = match state.activation_status {
                        Some(ast) => RollbackAction::Finish {
                            result: Err(Error::ActivationFailed(ast)),
                        },
                        None => RollbackAction::Finish {
                            result: Err(Error::ActivationFailed(ProcessStatus::Undetermined)),
                        },
                    };
                    rollback_done(a)
                },
                Some(rst) => {
                    let a = match state.activation_status {
                        Some(ast) => RollbackAction::Finish {
                            result: Err(Error::RevertFailed { activation: ast, revert: rst }),
                        },
                        None => RollbackAction::Finish {
                            result: Err(
                                Error::RevertFailed {
                                    activation: ProcessStatus::Undetermined,
                                    revert: rst,
                                },
                            ),
                        },
                    };
                    rollback_done(a)
                },
            },
            _ => (state, RollbackAction::Ignored),
        },
        RollbackPhase::Done => (state, RollbackAction::Ignored),
    }
}

/// What holds of a freshly selected rollback target: it stands in the
/// listing, the prior link records the current generation's link, the
/// target profile carries the resolved specialisation, and the next
/// action diffs the running system against the target's link.
pub open spec fn selected_ok(
    cfg: RollbackCfg,
    st: RollbackState,
    a: RollbackAction,
    gens: Seq<GenerationInfo>,
    spec_content: Option<String>,
) -> bool {
    &&& st.phase is Diffing
    &&& st.listing@ == gens
    &&& exists|i: int|
        {
            &&& 0 <= i < gens.len()
            &&& (#[trigger] gens[i]).number == st.target_number
            &&& gens[i].path@ == st.target_link@
        }
    &&& (has_current(gens) <==> st.prior_link is Some)
    &&& match st.prior_link {
        Some(p) => exists|i: int|
            {
                &&& 0 <= i < gens.len()
                &&& (#[trigger] gens[i]).current
                &&& gens[i].path@ == p@
            },
        None => true,
    }
    &&& st.target_profile@ == {
        let sel = if cfg.no_specialisation {
            Option::<Seq<char>>::None
        } else {
            match cfg.specialisation {
                Some(s) => Some(s@),
                None => match spec_content {
                    Some(c) => Some(c@),
                    None => None,
                },
            }
        };
        match sel {
            None => st.target_link@,
            Some(s) => st.target_link@ + seq!['/'] + "specialisation"@ + seq!['/'] + s,
        }
    }
    &&& a matches RollbackAction::RunDiff(c) && {
        &&& c.command@ == "nvd"@
        &&& c.args.deep_view() == seq!["diff"@, cfg.current_profile@, st.target_link@]
    }
}

/// A finished rollback.
fn rollback_done(a: RollbackAction) -> (r: (RollbackState, RollbackAction))
    ensures
        r.0.phase is Done,
        rollback_wf(r.0),
        r.1 == a,
{
    let st = RollbackState {
        phase: RollbackPhase::Done,
        target_number: 0,
        target_link: String::new(),
        prior_link: None,
        target_profile: String::new(),
        activation_status: None,
        listing: Ghost(Seq::empty()),
    };
    (st, a)
}

/// The link of the first generation flagged current, if any.
fn current_link(generations: &Vec<GenerationInfo>) -> (r: Option<String>)
    ensures
        r is Some <==> has_current(generations@),
        r is Some ==> exists|i: int|
            {
                &&& 0 <= i < generations@.len()
                &&& (#[trigger] generations@[i]).current
                &&& generations@[i].path@ == r->0@
            },
{
    let mut i: usize = 0;
    let n = generations.len();
    while i < n
        invariant
            i <= n,
            n == generations@.len(),
            forall|j: int| 0 <= j < i ==> !(#[trigger] generations@[j]).current,
        decreases n - i,
    {
        if generations[i].current {
            return Some(generations[i].path.clone());
        }
        i = i + 1;
    }
    None
}

/// The atomic repoint command of the system profile at a link.
fn repoint_command(cfg: &RollbackCfg, link: &String, message: &str) -> (r: Command)
    ensures
        repoint_cmd_ok(*cfg, r, link@),
        r.message is Some && r.message->0@ == message@,
{
    let c = Command::new("ln").arg("-sfn").arg(link.as_str()).arg(
        cfg.system_profile.as_str(),
    ).elevate(cfg.elevate).message(message);
    proof {
        assert(c.args.deep_view() =~= seq!["-sfn"@, link@, cfg.system_profile@]);
    }
    c
}

/// The transition into the repoint phase.
fn repoint_transition(cfg: &RollbackCfg, state: RollbackState) -> (r: (
    RollbackState,
    RollbackAction,
))
    requires
        rollback_wf(state),
        !(state.phase is Selecting),
        !(state.phase is Done),
    ensures
        rollback_wf(r.0),
        repoint_transition_ok(*cfg, state, r.0, r.1),
{
    let c = repoint_command(cfg, &state.target_link, "Setting system profile");
    let st = RollbackState { phase: RollbackPhase::Repointing, ..state };
    (st, RollbackAction::Repoint(c))
}

/// The action the machine is waiting on, phase by phase.
pub open spec fn rollback_pending_ok(
    cfg: RollbackCfg,
    st: RollbackState,
    a: RollbackAction,
) -> bool {
    match st.phase {
        RollbackPhase::Selecting => false,
        RollbackPhase::Diffing => a is RunDiff,
        RollbackPhase::Confirming => a is AskConfirmation,
        RollbackPhase::Repointing => a matches RollbackAction::Repoint(c) && repoint_cmd_ok(
            cfg,
            c,
            st.target_link@,
        ),
        RollbackPhase::Activating => a is RunActivate,
        RollbackPhase::Reverting => st.prior_link is Some && (a matches RollbackAction::Revert(c)
            && repoint_cmd_ok(cfg, c, st.prior_link->0@)),
        RollbackPhase::Done => false,
    }
}

/// What the trace keeps of a live rollback: the machine invariant, the
/// pending action, the selection facts tying the state to the listing,
/// and the repoints applied so far.
pub open spec fn rollback_trace_inv(
    cfg: RollbackCfg,
    gens: Seq<GenerationInfo>,
    st: RollbackState,
    a: RollbackAction,
    applied: Seq<Seq<char>>,
) -> bool {
    &&& rollback_wf(st)
    &&& rollback_pending_ok(cfg, st, a)
    &&& st.listing@ == gens
    &&& (has_current(gens) <==> st.prior_link is Some)
    &&& (st.prior_link is Some ==> st.prior_link->0@ == crate::generations::current_path_of(gens))
    &&& match st.phase {
        RollbackPhase::Activating => applied == seq![st.target_link@],
        RollbackPhase::Reverting => applied == seq![st.target_link@],
        _ => applied.len() == 0,
    }
}

/// The compensation law, over a finished trace: when the surfaced
/// outcome is the activation failure and the listing named a current
/// generation, the repoints the operation applied either never happened
/// or end with the repoint back at the current generation's link — the
/// profile's pre-operation resolved target.
pub open spec fn rollback_outcome_ok(
    gens: Seq<GenerationInfo>,
    outcome: Result<u64, Error>,
    applied: Seq<Seq<char>>,
) -> bool {
    (outcome matches Err(Error::ActivationFailed(..)) && has_current(gens)) ==> (applied.len() == 0
        || applied.last() == crate::generations::current_path_of(gens))
}

/// Runs a whole rollback over a given listing and the recorded outcomes
/// of its external steps, collecting every repoint that was applied (a
/// repoint counts as applied when its step reported success), in order.
///
/// Law: every outcome meets [`rollback_outcome_ok`] — a surfaced
/// activation failure leaves the profile's resolved target where it was
/// before the operation, whatever the events were.  `None` means the
/// events ran out before the operation finished.
pub fn rollback_trace(
    cfg: &RollbackCfg,
    generations: Vec<GenerationInfo>,
    spec_content: Option<String>,
    events: &Vec<RollbackEvent>,
) -> (r: (Option<Result<u64, Error>>, Vec<String>))
    requires
        unique_numbers(generations@),
        at_most_one_current(generations@),
    ensures
        r.0 is Some ==> rollback_outcome_ok(generations@, r.0->0, r.1.deep_view()),
{
    let ghost gens = generations@;
    proof {
        if has_current(gens) {
            let w = choose|i: int| 0 <= i < gens.len() && (#[trigger] gens[i]).current;
            assert(gens[w].path@ == crate::generations::current_path_of(gens));
        }
    }
    let initial = RollbackState {
        phase: RollbackPhase::Selecting,
        target_number: 0,
        target_link: String::new(),
        prior_link: None,
        target_profile: String::new(),
        activation_status: None,
        listing: Ghost(Seq::empty()),
    };
    let (mut state, mut action) = rollback_step(
        cfg,
        initial,
        RollbackEvent::Listed { generations, spec_content },
    );
    let mut applied: Vec<String> = Vec::new();
    proof {
        assert(applied.deep_view() =~= Seq::<Seq<char>>::empty());
        if state.phase is Diffing {
            // the selection facts: the unique current generation is the one
            // the selection recorded
            if has_current(gens) {
                let w = choose|i: int| 0 <= i < gens.len() && (#[trigger] gens[i]).current;
                if state.prior_link is Some {
                    let p = state.prior_link->0;
                    let j = choose|i: int|
                        0 <= i < gens.len() && (#[trigger] gens[i]).current && gens[i].path@
                            == p@;
                    assert(j == w);
                }
            }
        }
    }
    match action {
        RollbackAction::Finish { result } => {
            proof {
                assert(rollback_outcome_ok(gens, result, applied.deep_view()));
            }
            return (Some(result), applied);
        },
        other => {
            action = other;
        },
    }
    let mut k: usize = 0;
    while k < events.len()
        invariant
            k <= events@.len(),
            gens == generations@,
            unique_numbers(gens),
            at_most_one_current(gens),
            rollback_trace_inv(*cfg, gens, state, action, applied.deep_view()),
        decreases events@.len() - k,
    {
        let ev = match &events[k] {
            RollbackEvent::DiffFinished { status } => RollbackEvent::DiffFinished {
                status: *status,
            },
            RollbackEvent::Confirmed { answer } => RollbackEvent::Confirmed { answer: *answer },
            RollbackEvent::Repointed { status } => RollbackEvent::Repointed { status: *status },
            RollbackEvent::Activated { status } => RollbackEvent::Activated { status: *status },
            RollbackEvent::Reverted { status } => RollbackEvent::Reverted { status: *status },
            RollbackEvent::Listed { .. } => {
                // a listing outside the selection phase is ignored by the
                // machine whatever it holds
                let empty_listing: Vec<GenerationInfo> = Vec::new();
                RollbackEvent::Listed { generations: empty_listing, spec_content: None }
            },
        };
        // record a repoint the driver just saw succeed
        match (&action, &ev) {
            (RollbackAction::Repoint(c), RollbackEvent::Repointed { status: None }) => {
                let ghost before = applied.deep_view();
                proof {
                    assert(c.args.deep_view().len() == c.args@.len());
                    assert(c.args.deep_view()[1] == state.target_link@);
                }
                applied.push(c.args[1].clone());
                proof {
                    assert(applied.deep_view() =~= before.push(state.target_link@));
                }
            },
            (RollbackAction::Revert(c), RollbackEvent::Reverted { status: None }) => {
                let ghost before = applied.deep_view();
                proof {
                    assert(c.args.deep_view().len() == c.args@.len());
                    assert(c.args.deep_view()[1] == state.prior_link->0@);
                }
                applied.push(c.args[1].clone());
                proof {
                    assert(applied.deep_view() =~= before.push(state.prior_link->0@));
                }
            },
            _ => {
            },
        }
        let ghost prev = state;
        let (next_state, next_action) = rollback_step(cfg, state, ev);
        state = next_state;
        match next_action {
            RollbackAction::Finish { result } => {
                proof {
                    assert(rollback_outcome_ok(gens, result, applied.deep_view()));
                }
                return (Some(result), applied);
            },
            RollbackAction::Ignored => {
                // nothing happened; the pending action stands
            },
            other => {
                action = other;
            },
        }
        // the inductive step, piece by piece
        proof {
            assert(rollback_wf(state));
            assert(state.listing@ == gens);
            assert(has_current(gens) <==> state.prior_link is Some);
            assert(state.prior_link is Some ==> state.prior_link->0@
                == crate::generations::current_path_of(gens));
            assert(rollback_pending_ok(*cfg, state, action));
            assert(match state.phase {
                RollbackPhase::Activating => applied.deep_view() == seq![state.target_link@],
                RollbackPhase::Reverting => applied.deep_view() == seq![state.target_link@],
                _ => applied.deep_view().len() == 0,
            });
        }
        k = k + 1;
    }
    (None, applied)
}

} // verus!
