//! Platform workflow helpers: resolving an installable against its
//! configuration tree, specialisation handling, confirmation, privilege
//! checks, and the rendered invocations of the external tools.

use vstd::prelude::*;

use crate::commands::Command;
use crate::commands::string_eq;
use crate::error::Error;
use crate::error::ProcessStatus;
use crate::installable::Installable;
use crate::installable::InstallableModel;
use crate::installable::args_of;
use crate::installable::clone_strings;
use crate::installable::join_spec;
use crate::installable::parse_attribute;
use crate::installable::parse_spec;
use crate::util::MaybeTempPath;
use crate::util::path_join;
use crate::util::push_char;

verus! {

/// The first position of `#` in the text, or `-1` when none occurs.
pub open spec fn hash_index(s: Seq<char>) -> int
    decreases s.len(),
{
    if s.len() == 0 {
        -1
    } else if s.first() == '#' {
        0
    } else {
        let rest = hash_index(s.drop_first());
        if rest < 0 {
            -1
        } else {
            rest + 1
        }
    }
}

/// What the hash search means, spelled out.
proof fn lemma_hash_index(s: Seq<char>)
    ensures
        hash_index(s) == -1 <==> (forall|j: int| 0 <= j < s.len() ==> s[j] != '#'),
        hash_index(s) != -1 ==> {
            &&& 0 <= hash_index(s) < s.len()
            &&& s[hash_index(s)] == '#'
            &&& forall|j: int| 0 <= j < hash_index(s) ==> s[j] != '#'
        },
    decreases s.len(),
{
    if s.len() > 0 {
        lemma_hash_index(s.drop_first());
        assert(forall|j: int| 1 <= j < s.len() ==> s[j] == s.drop_first()[j - 1]);
    }
}

/// The flake installable an override value `reference#attribute` denotes:
/// everything before the first `#` is the reference, everything after it
/// is parsed as an attribute path; with no `#` the attribute is empty.
pub open spec fn env_flake_model(v: Seq<char>) -> InstallableModel {
    if hash_index(v) < 0 {
        InstallableModel::Flake { reference: v, attribute: Seq::empty() }
    } else {
        InstallableModel::Flake {
            reference: v.subrange(0, hash_index(v)),
            attribute: parse_spec(v.subrange(hash_index(v) + 1, v.len() as int)),
        }
    }
}

/// Resolves the installable from a platform override value when one is
/// set, else falls back to the given installable.
pub fn resolve_env_installable(var_value: Option<String>, fallback: Installable) -> (r:
    Installable)
    ensures
        var_value is None ==> r@ == fallback@,
        var_value is Some ==> r@ == env_flake_model(var_value->0@),
{
    match var_value {
        None => fallback,
        Some(v) => {
            proof {
                lemma_hash_index(v@);
            }
            let n = v.as_str().unicode_len();
            let mut i: usize = 0;
            while i < n && v.as_str().get_char(i) != '#'
                invariant
                    i <= n,
                    n == v@.len(),
                    forall|j: int| 0 <= j < i ==> v@[j] != '#',
                decreases n - i,
            {
                i = i + 1;
            }
            if i == n {
                let attribute: Vec<String> = Vec::new();
                proof {
                    assert(attribute.deep_view() =~= Seq::<Seq<char>>::empty());
                }
                let r = Installable::Flake { reference: v, attribute };
                return r;
            }
            assert(v@[i as int] == '#');
            assert(hash_index(v@) == i as int);
            let reference = String::from_str(v.as_str().substring_char(0, i));
            let tail = v.as_str().substring_char(i + 1, n);
            let attribute = parse_attribute(tail);
            Installable::Flake { reference, attribute }
        },
    }
}

/// The candidate configuration names probed against the tree: the
/// explicit name alone when one was given, else `user@host` then `user`.
pub open spec fn candidates_model(
    explicit: Option<Seq<char>>,
    user: Seq<char>,
    host: Seq<char>,
) -> Seq<Seq<char>> {
    match explicit {
        Some(name) => seq![name],
        None => seq![user + seq!['@'] + host, user],
    }
}

/// Returns the candidate configuration names, in probe order.
pub fn config_candidates(explicit: &Option<String>, user: &str, host: &str) -> (r: Vec<String>)
    ensures
        r.deep_view() == candidates_model(
            match explicit {
                Some(n) => Some(n@),
                None => None,
            },
            user@,
            host@,
        ),
{
    let mut out: Vec<String> = Vec::new();
    match explicit {
        Some(name) => {
            out.push(name.clone());
            proof {
                assert(out.deep_view() =~= seq![name@]);
            }
        },
        None => {
            let mut both = String::from_str(user);
            push_char(&mut both, '@');
            both.append(host);
            proof {
                assert(both@ =~= user@ + seq!['@'] + host@);
            }
            out.push(both);
            out.push(String::from_str(user));
            proof {
                assert(out.deep_view() =~= seq![user@ + seq!['@'] + host@, user@]);
            }
        },
    }
    out
}

/// The tree-membership probe: evaluates a boolean function against the
/// flake's tree and answers whether the candidate name is present.
/// The trimmed output `true` means present.
pub fn probe_invocation(
    reference: &String,
    attribute: &Vec<String>,
    candidate: &String,
    extra_args: &Vec<String>,
) -> (r: Command)
    ensures
        r.command@ == "nix"@,
        r.args.deep_view() == seq!["eval"@] + extra_args.deep_view() + seq![
            "--apply"@,
            "x: x ? \""@ + candidate@ + "\""@,
        ] + args_of(
            InstallableModel::Flake { reference: reference@, attribute: attribute.deep_view() },
        ),
        r.elevate == false,
        r.dry == false,
        r.ssh is None,
        r.env_vars@.len() == 0,
{
    let mut func = String::from_str("x: x ? \"");
    func.append(candidate.as_str());
    func.append("\"");
    proof {
        assert(func@ =~= "x: x ? \""@ + candidate@ + "\""@);
    }
    let flake = Installable::Flake {
        reference: reference.clone(),
        attribute: clone_strings(attribute),
    };
    let c = Command::new("nix").arg("eval").args(extra_args).arg("--apply").arg(
        func.as_str(),
    ).args(&flake.to_args());
    proof {
        assert(c.args.deep_view() =~= seq!["eval"@] + extra_args.deep_view() + seq![
            "--apply"@,
            "x: x ? \""@ + candidate@ + "\""@,
        ] + args_of(
            InstallableModel::Flake { reference: reference@, attribute: attribute.deep_view() },
        ));
    }
    c
}

/// Whether a probe output means the candidate is present: the trimmed
/// stdout is exactly `true`.
pub fn probe_output_is_true(output: &Option<String>) -> (r: bool)
    ensures
        r == match output {
            Some(o) => crate::installable::trim_ws(o@) == "true"@,
            None => false,
        },
{
    match output {
        None => false,
        Some(o) => {
            let trimmed = crate::installable::trim_string(o);
            let yes = String::from_str("true");
            string_eq(&trimmed, &yes)
        },
    }
}

/// The first candidate the probes found, within the results supplied.
pub open spec fn first_hit(results: Seq<bool>, limit: int) -> int
    decreases results.len(),
{
    if results.len() == 0 || limit <= 0 {
        -1
    } else if results.first() {
        0
    } else {
        let rest = first_hit(results.drop_first(), limit - 1);
        if rest < 0 {
            -1
        } else {
            rest + 1
        }
    }
}

/// What the first-hit search means, spelled out.
pub proof fn lemma_first_hit(results: Seq<bool>, limit: int)
    ensures
        first_hit(results, limit) == -1 <==> (forall|j: int|
            0 <= j < results.len() && j < limit ==> !results[j]),
        first_hit(results, limit) != -1 ==> {
            &&& 0 <= first_hit(results, limit) < results.len()
            &&& first_hit(results, limit) < limit
            &&& results[first_hit(results, limit)]
            &&& forall|j: int| 0 <= j < first_hit(results, limit) ==> !results[j]
        },
    decreases results.len(),
{
    if results.len() > 0 && limit > 0 {
        lemma_first_hit(results.drop_first(), limit - 1);
        assert(forall|j: int| 1 <= j < results.len() ==> results[j] == results.drop_first()[j - 1]);
    }
}

/// The rendered argument of the flake that was tried for one candidate:
/// the single builder argument of the flake with the candidate appended
/// to its attribute path.
pub open spec fn tried_arg(
    reference: Seq<char>,
    attribute: Seq<Seq<char>>,
    candidate: Seq<char>,
) -> Seq<char> {
    reference + seq!['#'] + join_spec(attribute.push(candidate))
}

/// The attribute path a resolved flake ends up with: the configuration
/// type, the chosen configuration name, and, when a concrete derivation
/// is required, the platform's extra path.
pub open spec fn extended_attr(
    config_type: Seq<char>,
    chosen: Seq<char>,
    extra: Seq<Seq<char>>,
    push_drv: bool,
) -> Seq<Seq<char>> {
    if push_drv {
        seq![config_type, chosen] + extra
    } else {
        seq![config_type, chosen]
    }
}

/// Renders the single builder argument of a flake whose attribute path is
/// the configuration type plus one candidate name.
fn render_tried(reference: &String, config_type: &str, candidate: &String) -> (r: String)
    ensures
        r@ == tried_arg(reference@, seq![config_type@], candidate@),
{
    let mut attr: Vec<String> = Vec::new();
    attr.push(String::from_str(config_type));
    attr.push(candidate.clone());
    proof {
        assert(attr.deep_view() =~= seq![config_type@].push(candidate@));
    }
    let joined = crate::installable::join_attribute(&attr);
    let mut r = reference.clone();
    push_char(&mut r, '#');
    r.append(joined.as_str());
    proof {
        assert(r@ =~= reference@ + seq!['#'] + join_spec(seq![config_type@].push(candidate@)));
    }
    r
}

/// Extends an installable with the attribute path that addresses one
/// configuration inside the platform's tree.
///
/// Only a flake with an empty attribute path is resolved: an explicit
/// attribute is never overridden.  The configuration type is appended,
/// then the first candidate name whose membership probe answered yes
/// (`probe_results`, in the order of [`config_candidates`]); with an
/// explicit name that was not found the error names the attempted path,
/// and when no candidate matched the error lists every attempted path.
/// File and expression installables take the extra path when a concrete
/// derivation is required; store paths and system pointers pass through
/// unchanged.
/// Extends an installable with the attribute path that addresses one
/// configuration inside the platform's tree.
///
/// Only a flake with an empty attribute path is resolved: an explicit
/// attribute is never overridden.  The configuration type is appended,
/// then the first candidate name whose membership probe answered yes
/// (`probe_results`, in the order of [`config_candidates`]); with an
/// explicit name that was not found the error names the attempted path,
/// and when no candidate matched the error lists every attempted path.
/// File and expression installables take the extra path when a concrete
/// derivation is required; store paths and system pointers pass through
/// unchanged.
pub open spec fn extend_outcome_ok(
    installable: Installable,
    config_type: Seq<char>,
    extra_path: Seq<Seq<char>>,
    config_name: Option<String>,
    push_drv: bool,
    probe_results: Seq<bool>,
    username: Seq<char>,
    hostname: Seq<char>,
    r: Result<Installable, Error>,
) -> bool {
    ({
            let cands = candidates_model(
                match config_name {
                    Some(n) => Some(n@),
                    None => None,
                },
                username,
                hostname,
            );
            let hit = first_hit(probe_results, cands.len() as int);
            match installable@ {
                InstallableModel::Flake { reference, attribute } => {
                    if attribute.len() > 0 {
                        r is Ok && r->Ok_0@ == installable@
                    } else if hit >= 0 {
                        r is Ok && r->Ok_0@ == (InstallableModel::Flake {
                            reference,
                            attribute: extended_attr(
                                config_type,
                                cands[hit],
                                extra_path,
                                push_drv,
                            ),
                        })
                    } else if config_name is Some {
                        r matches Err(Error::ExplicitConfigNotFound { tried }) && tried@
                            == tried_arg(reference, seq![config_type], config_name->0@)
                    } else {
                        r matches Err(Error::ConfigNotFound { attempted }) && attempted.deep_view()
                            == cands.map_values(
                            |c: Seq<char>| tried_arg(reference, seq![config_type], c),
                        )
                    }
                },
                InstallableModel::File { path, attribute } => r is Ok && r->Ok_0@ == (
                InstallableModel::File {
                    path,
                    attribute: if push_drv {
                        attribute + extra_path
                    } else {
                        attribute
                    },
                }),
                InstallableModel::Expression { expression, attribute } => r is Ok && r->Ok_0@ == (
                InstallableModel::Expression {
                    expression,
                    attribute: if push_drv {
                        attribute + extra_path
                    } else {
                        attribute
                    },
                }),
                InstallableModel::Store { .. } => r is Ok && r->Ok_0@ == installable@,
                InstallableModel::System { .. } => r is Ok && r->Ok_0@ == installable@,
            }
        })
}

/// Extends an installable with the attribute path that addresses one
/// configuration inside the platform's tree; the outcome is exactly
/// [`extend_outcome_ok`].
pub fn extend_installable_for_platform(
    installable: Installable,
    config_type: &str,
    extra_path: &Vec<String>,
    config_name: Option<String>,
    push_drv: bool,
    probe_results: &Vec<bool>,
    username: &str,
    hostname: &str,
) -> (r: Result<Installable, Error>)
    ensures
        extend_outcome_ok(
            installable,
            config_type@,
            extra_path.deep_view(),
            config_name,
            push_drv,
            probe_results@,
            username@,
            hostname@,
            r,
        ),
{
    match installable {
        Installable::Flake { reference, attribute } => {
            if attribute.len() > 0 {
                return Ok(Installable::Flake { reference, attribute });
            }
            let candidates = config_candidates(&config_name, username, hostname);
            let ghost cands = candidates.deep_view();
            proof {
                lemma_first_hit(probe_results@, cands.len() as int);
            }
            let mut i: usize = 0;
            let limit = if probe_results.len() < candidates.len() {
                probe_results.len()
            } else {
                candidates.len()
            };
            while i < limit
                invariant
                    i <= limit,
                    limit <= probe_results@.len(),
                    limit <= cands.len(),
                    limit == if probe_results@.len() < cands.len() {
                        probe_results@.len() as int
                    } else {
                        cands.len() as int
                    },
                    cands == candidates.deep_view(),
                    cands == candidates_model(
                        match config_name {
                            Some(n) => Some(n@),
                            None => None,
                        },
                        username@,
                        hostname@,
                    ),
                    installable@ == (InstallableModel::Flake {
                        reference: reference@,
                        attribute: attribute.deep_view(),
                    }),
                    attribute.deep_view().len() == 0,
                    forall|j: int| 0 <= j < i ==> !probe_results@[j],
                decreases limit - i,
            {
                if probe_results[i] {
                    assert(first_hit(probe_results@, cands.len() as int) == i as int) by {
                        lemma_first_hit(probe_results@, cands.len() as int);
                    }
                    let chosen = candidates[i].clone();
                    let mut attr: Vec<String> = Vec::new();
                    attr.push(String::from_str(config_type));
                    attr.push(chosen);
                    proof {
                        assert(attr.deep_view() =~= seq![config_type@, cands[i as int]]);
                    }
                    if push_drv {
                        let mut k: usize = 0;
                        while k < extra_path.len()
                            invariant
                                k <= extra_path@.len(),
                                0 <= i < cands.len(),
                                attr.deep_view() =~= seq![config_type@, cands[i as int]]
                                    + extra_path.deep_view().subrange(0, k as int),
                            decreases extra_path@.len() - k,
                        {
                            let ghost before = attr.deep_view();
                            attr.push(extra_path[k].clone());
                            proof {
                                assert(attr.deep_view() =~= before.push(
                                    extra_path.deep_view()[k as int],
                                ));
                                assert(attr.deep_view() =~= seq![config_type@, cands[i as int]]
                                    + extra_path.deep_view().subrange(0, k + 1));
                            }
                            k = k + 1;
                        }
                        proof {
                            assert(extra_path.deep_view().subrange(0, extra_path@.len() as int)
                                =~= extra_path.deep_view());
                        }
                    }
                    proof {
                        assert(attr.deep_view() =~= extended_attr(
                            config_type@,
                            cands[i as int],
                            extra_path.deep_view(),
                            push_drv,
                        ));
                        let ghost cands2 = candidates_model(
                            match config_name {
                                Some(n) => Some(n@),
                                None => None,
                            },
                            username@,
                            hostname@,
                        );
                        assert(cands2 == cands);
                        let ghost hit = first_hit(probe_results@, cands2.len() as int);
                        assert(hit == i as int);
                        assert(attr.deep_view() == extended_attr(
                            config_type@,
                            cands2[hit],
                            extra_path.deep_view(),
                            push_drv,
                        ));
                    }
                    return Ok(Installable::Flake { reference, attribute: attr });
                }
                i = i + 1;
            }
            assert(first_hit(probe_results@, cands.len() as int) == -1) by {
                lemma_first_hit(probe_results@, cands.len() as int);
            }
            match config_name {
                Some(name) => {
                    let tried = render_tried(&reference, config_type, &name);
                    Err(Error::ExplicitConfigNotFound { tried })
                },
                None => {
                    let mut tried: Vec<String> = Vec::new();
                    let mut k: usize = 0;
                    while k < candidates.len()
                        invariant
                            k <= candidates@.len(),
                            cands == candidates.deep_view(),
                            tried.deep_view() =~= cands.subrange(0, k as int).map_values(
                                |c: Seq<char>| tried_arg(reference@, seq![config_type@], c),
                            ),
                        decreases candidates@.len() - k,
                    {
                        let ghost before = tried.deep_view();
                        let one = render_tried(&reference, config_type, &candidates[k]);
                        tried.push(one);
                        proof {
                            let f = |c: Seq<char>| tried_arg(reference@, seq![config_type@], c);
                            assert(tried.deep_view() =~= before.push(f(cands[k as int])));
                            assert(cands.subrange(0, k + 1) =~= cands.subrange(0, k as int).push(
                                cands[k as int],
                            ));
                            assert(tried.deep_view() =~= cands.subrange(0, k + 1).map_values(f));
                        }
                        k = k + 1;
                    }
                    proof {
                        assert(cands.subrange(0, cands.len() as int) =~= cands);
                    }
                    Err(Error::ConfigNotFound { attempted: tried })
                },
            }
        },
        Installable::File { path, attribute } => {
            let attribute = append_extra(attribute, extra_path, push_drv);
            Ok(Installable::File { path, attribute })
        },
        Installable::Expression { expression, attribute } => {
            let attribute = append_extra(attribute, extra_path, push_drv);
            Ok(Installable::Expression { expression, attribute })
        },
        Installable::Store { path } => Ok(Installable::Store { path }),
        Installable::System { path } => Ok(Installable::System { path }),
    }
}

/// Appends the platform's extra path when a concrete derivation is
/// required.
fn append_extra(attribute: Vec<String>, extra_path: &Vec<String>, push_drv: bool) -> (r: Vec<
    String,
>)
    ensures
        r.deep_view() == if push_drv {
            attribute.deep_view() + extra_path.deep_view()
        } else {
            attribute.deep_view()
        },
{
    let mut attribute = attribute;
    let ghost base = attribute.deep_view();
    if push_drv {
        let mut k: usize = 0;
        while k < extra_path.len()
            invariant
                k <= extra_path@.len(),
                attribute.deep_view() =~= base + extra_path.deep_view().subrange(0, k as int),
            decreases extra_path@.len() - k,
        {
            let ghost before = attribute.deep_view();
            attribute.push(extra_path[k].clone());
            proof {
                assert(attribute.deep_view() =~= before.push(extra_path.deep_view()[k as int]));
                assert(attribute.deep_view() =~= base + extra_path.deep_view().subrange(0, k + 1));
            }
            k = k + 1;
        }
        proof {
            assert(extra_path.deep_view().subrange(0, extra_path@.len() as int) =~= extra_path.deep_view());
        }
    } else {
        proof {
            assert(attribute.deep_view() =~= base);
        }
    }
    attribute
}

/// The specialisation a rebuild targets: none when specialisations are
/// switched off; otherwise an explicit override is preferred, falling
/// back to the marker file's current content (whose absence is not an
/// error).
pub fn handle_specialisation(
    spec_content: Option<String>,
    no_specialisation: bool,
    explicit_specialisation: Option<String>,
) -> (r: Option<String>)
    ensures
        no_specialisation ==> r is None,
        !no_specialisation && explicit_specialisation is Some ==> r == explicit_specialisation,
        !no_specialisation && explicit_specialisation is None ==> r == spec_content,
{
    if no_specialisation {
        None
    } else {
        match explicit_specialisation {
            Some(s) => Some(s),
            None => spec_content,
        }
    }
}

/// The specialisation decision of a whole operation; identical to
/// [`handle_specialisation`] with the arguments in pipeline order.
pub fn process_specialisation(
    no_specialisation: bool,
    specialisation: Option<String>,
    spec_content: Option<String>,
) -> (r: Option<String>)
    ensures
        no_specialisation ==> r is None,
        !no_specialisation && specialisation is Some ==> r == specialisation,
        !no_specialisation && specialisation is None ==> r == spec_content,
{
    handle_specialisation(spec_content, no_specialisation, specialisation)
}

/// Whether the operation may proceed.  A dry run never proceeds (and
/// never prompts).  When confirmation was requested, `answer` carries the
/// prompt's reply: a no is the user's rejection, a missing reply means
/// the prompt could not be read.  Without a requested confirmation the
/// operation proceeds.
pub fn confirm_action(ask: bool, dry: bool, answer: Option<bool>) -> (r: Result<bool, Error>)
    ensures
        dry ==> r == Ok::<bool, Error>(false),
        !dry && !ask ==> r == Ok::<bool, Error>(true),
        !dry && ask && answer == Some(true) ==> r == Ok::<bool, Error>(true),
        !dry && ask && answer == Some(false) ==> r == Err::<bool, Error>(Error::UserRejected),
        !dry && ask && answer is None ==> r == Err::<bool, Error>(Error::PromptFailed),
{
    if dry {
        return Ok(false);
    }
    if !ask {
        return Ok(true);
    }
    match answer {
        Some(true) => Ok(true),
        Some(false) => Err(Error::UserRejected),
        None => Err(Error::PromptFailed),
    }
}

/// What the root check decides, given whether the process runs as root:
/// bypassing yields no elevation; running as root is refused; otherwise
/// elevation will be used.
pub fn root_check_decision(bypass_root_check: bool, is_root: bool) -> (r: Result<bool, Error>)
    ensures
        bypass_root_check ==> r == Ok::<bool, Error>(false),
        !bypass_root_check && is_root ==> r == Err::<bool, Error>(Error::RunningAsRoot),
        !bypass_root_check && !is_root ==> r == Ok::<bool, Error>(true),
{
    if bypass_root_check {
        Ok(false)
    } else if is_root {
        Err(Error::RunningAsRoot)
    } else {
        Ok(true)
    }
}

/// Refuses to run as the root user (the tool elevates itself where
/// needed); with the bypass set, runs as-is without elevation.  The
/// user id is read from the running process, so only the bypass case is
/// pinned; every other outcome follows [`root_check_decision`].
pub fn check_not_root(bypass_root_check: bool) -> (r: Result<bool, Error>)
    ensures
        bypass_root_check ==> r == Ok::<bool, Error>(false),
        r is Err ==> r == Err::<bool, Error>(Error::RunningAsRoot),
{
    let is_root = crate::util::effective_uid_is_root();
    root_check_decision(bypass_root_check, is_root)
}

/// The profile path an operation targets: the output path itself, or its
/// specialisation subdirectory when a specialisation is selected.
pub fn get_target_profile<P: MaybeTempPath>(out_path: &P, target_specialisation: &Option<String>)
    -> (r: String)
    ensures
        target_specialisation is None ==> r@ == out_path.path_model(),
        target_specialisation is Some ==> r@ == out_path.path_model() + seq!['/']
            + "specialisation"@ + seq!['/'] + target_specialisation->0@,
{
    match target_specialisation {
        None => out_path.get_path().clone(),
        Some(s) => {
            let base = path_join(out_path.get_path().as_str(), "specialisation");
            let r = path_join(base.as_str(), s.as_str());
            proof {
                assert(r@ =~= out_path.path_model() + seq!['/'] + "specialisation"@ + seq!['/']
                    + target_specialisation->0@);
            }
            r
        },
    }
}

/// The diff of two configurations: the external diff tool with exactly
/// two positional paths, old then new; only its exit status is
/// interpreted by the caller.
pub fn compare_configurations(current_profile: &str, target_profile: &str, message: &str) -> (r:
    Command)
    ensures
        r.command@ == "nvd"@,
        r.args.deep_view() == seq!["diff"@, current_profile@, target_profile@],
        r.message is Some && r.message->0@ == message@,
        r.elevate == false,
        r.dry == false,
        r.ssh is None,
        r.env_vars@.len() == 0,
{
    let c = Command::new("nvd").arg("diff").arg(current_profile).arg(target_profile).message(
        message,
    );
    proof {
        assert(c.args.deep_view() =~= seq!["diff"@, current_profile@, target_profile@]);
    }
    c
}

/// The hostname an operation targets: the explicit one when given, else
/// the machine's own; fails when neither is available.  The mismatch
/// flag reports that comparison should be skipped because the system
/// hostname is known and differs from the target.
pub fn get_target_hostname(
    explicit_hostname: Option<String>,
    skip_if_mismatch: bool,
    system_hostname: Option<String>,
) -> (r: Result<(String, bool), Error>)
    ensures
        explicit_hostname is None && system_hostname is None ==> r == Err::<
            (String, bool),
            Error,
        >(Error::HostnameUnavailable),
        explicit_hostname is Some ==> {
            &&& r is Ok
            &&& r->Ok_0.0@ == explicit_hostname->0@
            &&& r->Ok_0.1 == (skip_if_mismatch && system_hostname is Some && system_hostname->0@
                != explicit_hostname->0@)
        },
        explicit_hostname is None && system_hostname is Some ==> {
            &&& r is Ok
            &&& r->Ok_0.0@ == system_hostname->0@
            &&& r->Ok_0.1 == false
        },
{
    match explicit_hostname {
        Some(h) => {
            let mismatch = match &system_hostname {
                Some(sys) => skip_if_mismatch && !string_eq(sys, &h),
                None => false,
            };
            Ok((h, mismatch))
        },
        None => {
            match system_hostname {
                Some(sys) => Ok((sys, false)),
                None => Err(Error::HostnameUnavailable),
            }
        },
    }
}

/// The activation command of a built system configuration: the
/// activation program beneath the built artifact, invoked with the
/// requested mode, elevated as required, optionally on a remote host.
pub fn activate_nixos_configuration(
    target_profile: &str,
    variant: &str,
    target_host: Option<String>,
    elevate: bool,
    message: &str,
) -> (r: Command)
    ensures
        r.command@ == target_profile@ + seq!['/'] + "bin"@ + seq!['/']
            + "switch-to-configuration"@,
        r.args.deep_view() == seq![variant@],
        r.ssh == target_host,
        r.elevate == elevate,
        r.message is Some && r.message->0@ == message@,
        r.dry == false,
        r.env_vars@.len() == 0,
{
    let base = path_join(target_profile, "bin");
    let program = path_join(base.as_str(), "switch-to-configuration");
    proof {
        assert(program@ =~= target_profile@ + seq!['/'] + "bin"@ + seq!['/']
            + "switch-to-configuration"@);
    }
    let c = Command::new(program.as_str()).arg(variant).ssh(target_host).message(message).elevate(
        elevate,
    );
    proof {
        assert(c.args.deep_view() =~= seq![variant@]);
    }
    c
}

/// The interactive evaluation session over a resolved installable.
/// Store-path installables carry no tree to explore and are refused.
pub fn run_repl(installable: &Installable) -> (r: Result<Command, Error>)
    ensures
        installable@ is Store ==> r == Err::<Command, Error>(Error::StoreNotSupported),
        !(installable@ is Store) ==> {
            &&& r is Ok
            &&& r->Ok_0.command@ == "nix"@
            &&& r->Ok_0.args.deep_view() == seq!["repl"@] + args_of(installable@)
            &&& r->Ok_0.show_output == true
            &&& r->Ok_0.elevate == false
            &&& r->Ok_0.dry == false
        },
{
    match installable {
        Installable::Store { .. } => Err(Error::StoreNotSupported),
        _ => {
            let c = Command::new("nix").arg("repl").args(&installable.to_args()).show_output(true);
            proof {
                assert(c.args.deep_view() =~= seq!["repl"@] + args_of(installable@));
            }
            Ok(c)
        },
    }
}

/// Which activation program a pipeline runs.
#[derive(Debug, Clone, Copy, PartialEq, Eq, Structural)]
pub enum ActivationKind {
    /// The system activation program beneath the built artifact.
    SwitchToConfiguration,
    /// The user-environment activation script beneath the built artifact.
    HomeActivate,
    /// The darwin rebuild program beneath the built artifact.
    DarwinRebuild,
}

/// Everything a rebuild pipeline decides by: the variant's capabilities,
/// the user's flags, and the paths involved.
#[derive(Debug)]
pub struct RebuildCfg {
    /// Describe, never execute; the pipeline stops after the diff.
    pub dry: bool,
    /// Ask for confirmation before activating.
    pub ask: bool,
    /// The variant only builds; the pipeline stops after the diff.
    pub build_only: bool,
    /// The variant activates the configuration.
    pub activate: bool,
    /// The variant registers the configuration as the boot default.
    pub boot: bool,
    /// The mode argument of the system activation program.
    pub activation_mode: String,
    /// Copy to and activate on this remote host.
    pub target_host: Option<String>,
    /// Run privileged steps elevated.
    pub elevate: bool,
    /// Where the build output is linked.
    pub out_path: String,
    /// Never resolve a specialisation.
    pub no_specialisation: bool,
    /// An explicit specialisation override.
    pub specialisation: Option<String>,
    /// What the new configuration is diffed against; nothing to diff when
    /// absent (a fresh install).
    pub diff_against: Option<String>,
    /// Skip the diff entirely (a hostname mismatch, or the caller said so).
    pub skip_compare: bool,
    /// A diff failure is logged, not propagated.
    pub lenient_diff: bool,
    /// The system profile registered as boot default.
    pub system_profile: String,
    /// Which activation program the variant runs.
    pub activation_kind: ActivationKind,
    /// The backup extension handed to the user-environment activation.
    pub backup_extension: Option<String>,
}

/// Where a rebuild pipeline stands.
#[derive(Debug, Clone, Copy, PartialEq, Eq, Structural)]
pub enum RebuildPhase {
    Building,
    Diffing,
    Confirming,
    Copying,
    Activating,
    BootBuilding,
    BootActivating,
    Done,
}

/// The pipeline's state between steps.
#[derive(Debug)]
pub struct RebuildState {
    pub phase: RebuildPhase,
    /// The resolved profile path (with its specialisation), once built.
    pub target_profile: String,
}

/// What the driver reports back to the pipeline: the outcome of each
/// external step.  A `status` of `None` means the step succeeded.
#[derive(Debug)]
pub enum RebuildEvent {
    BuildFinished { status: Option<ProcessStatus>, spec_content: Option<String> },
    DiffFinished { status: Option<ProcessStatus> },
    Confirmed { answer: Option<bool> },
    CopyFinished { status: Option<ProcessStatus> },
    ActivateFinished { status: Option<ProcessStatus> },
    BootBuildFinished { status: Option<ProcessStatus>, needs_elevation: Option<bool> },
    BootActivateFinished { status: Option<ProcessStatus> },
}

/// What the driver must do next.
#[derive(Debug)]
pub enum RebuildAction {
    RunBuild(crate::commands::Build),
    RunDiff(Command),
    AskConfirmation,
    RunCopy(Command),
    RunActivate(Command),
    RunBootBuild(Command),
    RunBootActivate(Command),
    /// The pipeline is over; when a confirmation flag was requested on a
    /// run that never reaches activation, the driver warns that the flag
    /// is ignored instead of silently dropping it.
    Finish { result: Result<(), Error>, warn_ask_ignored: bool },
    /// The event does not belong to the current phase; nothing happens.
    Ignored,
}

/// The phases a dry or build-only run can stand in: it never leaves the
/// build-and-diff stage before finishing.
pub open spec fn pre_gate_phase(ph: RebuildPhase) -> bool {
    ph is Building || ph is Diffing || ph is Done
}

/// The specialisation a pipeline resolves, from its flags and the marker
/// file's content.
pub open spec fn target_sel(cfg: RebuildCfg, spec_content: Option<String>) -> Option<Seq<char>> {
    if cfg.no_specialisation {
        None
    } else {
        match cfg.specialisation {
            Some(s) => Some(s@),
            None => match spec_content {
                Some(c) => Some(c@),
                None => None,
            },
        }
    }
}

/// The profile path the pipeline targets once built.
pub open spec fn target_profile_model(cfg: RebuildCfg, spec_content: Option<String>) -> Seq<
    char,
> {
    match target_sel(cfg, spec_content) {
        None => cfg.out_path@,
        Some(s) => cfg.out_path@ + seq!['/'] + "specialisation"@ + seq!['/'] + s,
    }
}

/// The copy of the built artifact to the remote activation host.
pub open spec fn copy_cmd_ok(cfg: RebuildCfg, c: Command, target: Seq<char>) -> bool {
    &&& cfg.target_host is Some
    &&& c.command@ == "nix"@
    &&& c.args.deep_view() == seq!["copy"@, "--to"@, "ssh://"@ + cfg.target_host->0@, target]
    &&& c.elevate == false
    &&& c.dry == false
}

/// The activation command of the variant's activation program.
pub open spec fn activate_cmd_ok(cfg: RebuildCfg, c: Command, target: Seq<char>) -> bool {
    match cfg.activation_kind {
        ActivationKind::SwitchToConfiguration => {
            &&& c.command@ == target + seq!['/'] + "bin"@ + seq!['/'] + "switch-to-configuration"@
            &&& c.args.deep_view() == seq![cfg.activation_mode@]
            &&& c.ssh == cfg.target_host
            &&& c.elevate == cfg.elevate
        },
        ActivationKind::HomeActivate => {
            &&& c.command@ == target + seq!['/'] + "activate"@
            &&& c.args.deep_view() == Seq::<Seq<char>>::empty()
            &&& c.ssh is None
            &&& c.elevate == false
            &&& crate::commands::env_model(c.env_vars@) == match cfg.backup_extension {
                Some(e) => seq![
                    ("HOME_MANAGER_BACKUP_EXT"@, crate::commands::EnvActionModel::SetTo(e@)),
                ],
                None => Seq::<(Seq<char>, crate::commands::EnvActionModel)>::empty(),
            }
        },
        ActivationKind::DarwinRebuild => {
            &&& c.command@ == target + seq!['/'] + "bin"@ + seq!['/'] + "switch-to-configuration"@
            &&& c.args.deep_view() == seq![cfg.activation_mode@]
            &&& c.ssh == cfg.target_host
            &&& c.elevate == cfg.elevate
        },
    }
}

/// The registration of the built artifact as the system profile.
pub open spec fn boot_build_cmd_ok(cfg: RebuildCfg, c: Command, target: Seq<char>) -> bool {
    &&& c.command@ == "nix"@
    &&& match cfg.activation_kind {
        ActivationKind::DarwinRebuild => {
            &&& c.args.deep_view() == seq![
                "build"@,
                "--no-link"@,
                "--profile"@,
                cfg.system_profile@,
                target,
            ]
            &&& c.elevate == true
            &&& c.ssh is None
        },
        _ => {
            &&& c.args.deep_view() == seq![
                "build"@,
                "--no-link"@,
                "--profile"@,
                cfg.system_profile@,
                cfg.out_path@,
            ]
            &&& c.elevate == cfg.elevate
            &&& c.ssh == cfg.target_host
        },
    }
}

/// The boot-mode activation (or, on darwin, the activation itself) that
/// follows the profile registration.
pub open spec fn boot_activate_cmd_ok(
    cfg: RebuildCfg,
    c: Command,
    target: Seq<char>,
    boot_elevate: bool,
) -> bool {
    match cfg.activation_kind {
        ActivationKind::DarwinRebuild => {
            &&& c.command@ == target + seq!['/'] + "sw/bin/darwin-rebuild"@
            &&& c.args.deep_view() == seq!["activate"@]
            &&& c.elevate == boot_elevate
            &&& c.ssh is None
        },
        _ => {
            &&& c.command@ == cfg.out_path@ + seq!['/'] + "bin"@ + seq!['/']
                + "switch-to-configuration"@
            &&& c.args.deep_view() == seq!["boot"@]
            &&& c.elevate == cfg.elevate
            &&& c.ssh == cfg.target_host
        },
    }
}

/// After activation: register the boot default when the variant asks for
/// it, else the pipeline is over.
pub open spec fn post_activate_ok(
    cfg: RebuildCfg,
    st: RebuildState,
    a: RebuildAction,
    target: Seq<char>,
) -> bool {
    if cfg.boot {
        &&& st.phase is BootBuilding
        &&& st.target_profile@ == target
        &&& a matches RebuildAction::RunBootBuild(c) && boot_build_cmd_ok(cfg, c, target)
    } else {
        &&& st.phase is Done
        &&& a == (RebuildAction::Finish { result: Ok::<(), Error>(()), warn_ask_ignored: false })
    }
}

/// After the copy: activate when the variant asks for it, else continue.
pub open spec fn post_copy_ok(
    cfg: RebuildCfg,
    st: RebuildState,
    a: RebuildAction,
    target: Seq<char>,
) -> bool {
    if cfg.activate {
        &&& st.phase is Activating
        &&& st.target_profile@ == target
        &&& a matches RebuildAction::RunActivate(c) && activate_cmd_ok(cfg, c, target)
    } else {
        post_activate_ok(cfg, st, a, target)
    }
}

/// After confirmation: copy to the remote host when one is set, else
/// continue.
pub open spec fn post_confirm_ok(
    cfg: RebuildCfg,
    st: RebuildState,
    a: RebuildAction,
    target: Seq<char>,
) -> bool {
    if cfg.target_host is Some {
        &&& st.phase is Copying
        &&& st.target_profile@ == target
        &&& a matches RebuildAction::RunCopy(c) && copy_cmd_ok(cfg, c, target)
    } else {
        post_copy_ok(cfg, st, a, target)
    }
}

/// The comparison gate: a dry run or a build-only variant finishes
/// successfully here (warning when confirmation was requested); else the
/// user is asked when confirmation was requested, else the pipeline
/// continues.
pub open spec fn gate_ok(
    cfg: RebuildCfg,
    st: RebuildState,
    a: RebuildAction,
    target: Seq<char>,
) -> bool {
    if cfg.dry || cfg.build_only {
        &&& st.phase is Done
        &&& a == (RebuildAction::Finish {
            result: Ok::<(), Error>(()),
            warn_ask_ignored: cfg.ask,
        })
    } else if cfg.ask {
        &&& st.phase is Confirming
        &&& st.target_profile@ == target
        &&& a is AskConfirmation
    } else {
        post_confirm_ok(cfg, st, a, target)
    }
}

/// Starts a rebuild pipeline: the configured build of the resolved
/// installable, linked at the configured output path.
pub fn handle_rebuild_workflow(
    cfg: &RebuildCfg,
    installable: Installable,
    extra_args: &Vec<String>,
    build_host: Option<String>,
    message: &str,
    no_nom: bool,
) -> (r: (RebuildState, RebuildAction))
    ensures
        r.0.phase is Building,
        r.1 matches RebuildAction::RunBuild(b) && {
            &&& b.installable@ == installable@
            &&& b.extra_args.deep_view() == seq!["--out-link"@, cfg.out_path@]
                + extra_args.deep_view()
            &&& b.nom == !no_nom
            &&& b.builder == build_host
            &&& b.message is Some && b.message->0@ == message@
        },
{
    let b = build_configuration(installable, &cfg.out_path, extra_args, build_host, message, no_nom);
    let state = RebuildState { phase: RebuildPhase::Building, target_profile: String::new() };
    (state, RebuildAction::RunBuild(b))
}

/// Advances a rebuild pipeline by one step.
///
/// Every transition is pinned: a failed build, diff (unless lenient),
/// copy or profile registration finishes with `CommandFailed`; a failed
/// activation finishes with `ActivationFailed`; a rejected confirmation
/// finishes with `UserRejected`.  A dry run or a build-only variant
/// finishes successfully at the comparison gate and never emits a
/// copy, activation or boot-registration action — on no input at all
/// does such a run reach one.
pub fn rebuild_step(cfg: &RebuildCfg, state: RebuildState, event: RebuildEvent) -> (r: (
    RebuildState,
    RebuildAction,
))
    ensures
        (cfg.dry || cfg.build_only) && pre_gate_phase(state.phase) ==> pre_gate_phase(r.0.phase)
            && !(r.1 is RunCopy) && !(r.1 is RunActivate) && !(r.1 is RunBootBuild) && !(r.1
            is RunBootActivate) && !(r.1 is AskConfirmation),
        state.phase is Building ==> match event {
            RebuildEvent::BuildFinished { status, spec_content } => {
                let target = target_profile_model(*cfg, spec_content);
                match status {
                    Some(st) => r.0.phase is Done && r.1 == (RebuildAction::Finish {
                        result: Err::<(), Error>(Error::CommandFailed(st)),
                        warn_ask_ignored: false,
                    }),
                    None => {
                        if cfg.skip_compare || cfg.diff_against is None {
                            gate_ok(*cfg, r.0, r.1, target)
                        } else {
                            &&& r.0.phase is Diffing
                            &&& r.0.target_profile@ == target
                            &&& r.1 matches RebuildAction::RunDiff(c) && {
                                &&& c.command@ == "nvd"@
                                &&& c.args.deep_view() == seq![
                                    "diff"@,
                                    cfg.diff_against->0@,
                                    target,
                                ]
                            }
                        }
                    },
                }
            },
            _ => r.1 is Ignored && r.0 == state,
        },
        state.phase is Diffing ==> match event {
            RebuildEvent::DiffFinished { status } => match status {
                Some(st) => {
                    if cfg.lenient_diff {
                        gate_ok(*cfg, r.0, r.1, state.target_profile@)
                    } else {
                        r.0.phase is Done && r.1 == (RebuildAction::Finish {
                            result: Err::<(), Error>(Error::CommandFailed(st)),
                            warn_ask_ignored: false,
                        })
                    }
                },
                None => gate_ok(*cfg, r.0, r.1, state.target_profile@),
            },
            _ => r.1 is Ignored && r.0 == state,
        },
        state.phase is Confirming ==> match event {
            RebuildEvent::Confirmed { answer } => match answer {
                Some(true) => post_confirm_ok(*cfg, r.0, r.1, state.target_profile@),
                Some(false) => r.0.phase is Done && r.1 == (RebuildAction::Finish {
                    result: Err::<(), Error>(Error::UserRejected),
                    warn_ask_ignored: false,
                }),
                None => r.0.phase is Done && r.1 == (RebuildAction::Finish {
                    result: Err::<(), Error>(Error::PromptFailed),
                    warn_ask_ignored: false,
                }),
            },
            _ => r.1 is Ignored && r.0 == state,
        },
        state.phase is Copying ==> match event {
            RebuildEvent::CopyFinished { status } => match status {
                Some(st) => r.0.phase is Done && r.1 == (RebuildAction::Finish {
                    result: Err::<(), Error>(Error::CommandFailed(st)),
                    warn_ask_ignored: false,
                }),
                None => post_copy_ok(*cfg, r.0, r.1, state.target_profile@),
            },
            _ => r.1 is Ignored && r.0 == state,
        },
        state.phase is Activating ==> match event {
            RebuildEvent::ActivateFinished { status } => match status {
                Some(st) => r.0.phase is Done && r.1 == (RebuildAction::Finish {
                    result: Err::<(), Error>(Error::ActivationFailed(st)),
                    warn_ask_ignored: false,
                }),
                None => post_activate_ok(*cfg, r.0, r.1, state.target_profile@),
            },
            _ => r.1 is Ignored && r.0 == state,
        },
        state.phase is BootBuilding ==> match event {
            RebuildEvent::BootBuildFinished { status, needs_elevation } => match status {
                Some(st) => r.0.phase is Done && r.1 == (RebuildAction::Finish {
                    result: Err::<(), Error>(Error::CommandFailed(st)),
                    warn_ask_ignored: false,
                }),
                None => {
                    &&& r.0.phase is BootActivating
                    &&& r.0.target_profile@ == state.target_profile@
                    &&& r.1 matches RebuildAction::RunBootActivate(c) && boot_activate_cmd_ok(
                        *cfg,
                        c,
                        state.target_profile@,
                        match needs_elevation {
                            Some(b) => b,
                            None => cfg.elevate,
                        },
                    )
                },
            },
            _ => r.1 is Ignored && r.0 == state,
        },
        state.phase is BootActivating ==> match event {
            RebuildEvent::BootActivateFinished { status } => match status {
                Some(st) => r.0.phase is Done && r.1 == (RebuildAction::Finish {
                    result: Err::<(), Error>(Error::ActivationFailed(st)),
                    warn_ask_ignored: false,
                }),
                None => r.0.phase is Done && r.1 == (RebuildAction::Finish {
                    result: Ok::<(), Error>(()),
                    warn_ask_ignored: false,
                }),
            },
            _ => r.1 is Ignored && r.0 == state,
        },
        state.phase is Done ==> r.1 is Ignored && r.0 == state,
{
    match state.phase {
        RebuildPhase::Building => match event {
            RebuildEvent::BuildFinished { status, spec_content } => match status {
                Some(st) => done_with(Err(Error::CommandFailed(st)), false),
                None => {
                    let sel = handle_specialisation(
                        spec_content,
                        cfg.no_specialisation,
                        clone_opt_string(&cfg.specialisation),
                    );
                    let holder = crate::util::PlainPath { path: cfg.out_path.clone() };
                    let target = get_target_profile(&holder, &sel);
                    if cfg.skip_compare || option_is_none(&cfg.diff_against) {
                        gate(cfg, target)
                    } else {
                        let old_path = match &cfg.diff_against {
                            Some(p) => p.clone(),
                            None => String::new(),
                        };
                        let c = compare_configurations(
                            old_path.as_str(),
                            target.as_str(),
                            "Comparing changes",
                        );
                        (
                            RebuildState { phase: RebuildPhase::Diffing, target_profile: target },
                            RebuildAction::RunDiff(c),
                        )
                    }
                },
            },
            _ => (state, RebuildAction::Ignored),
        },
        RebuildPhase::Diffing => match event {
            RebuildEvent::DiffFinished { status } => match status {
                Some(st) => {
                    if cfg.lenient_diff {
                        gate(cfg, state.target_profile)
                    } else {
                        done_with(Err(Error::CommandFailed(st)), false)
                    }
                },
                None => gate(cfg, state.target_profile),
            },
            _ => (state, RebuildAction::Ignored),
        },
        RebuildPhase::Confirming => match event {
            RebuildEvent::Confirmed { answer } => match answer {
                Some(true) => post_confirm(cfg, state.target_profile),
                Some(false) => done_with(Err(Error::UserRejected), false),
                None => done_with(Err(Error::PromptFailed), false),
            },
            _ => (state, RebuildAction::Ignored),
        },
        RebuildPhase::Copying => match event {
            RebuildEvent::CopyFinished { status } => match status {
                Some(st) => done_with(Err(Error::CommandFailed(st)), false),
                None => post_copy(cfg, state.target_profile),
            },
            _ => (state, RebuildAction::Ignored),
        },
        RebuildPhase::Activating => match event {
            RebuildEvent::ActivateFinished { status } => match status {
                Some(st) => done_with(Err(Error::ActivationFailed(st)), false),
                None => post_activate(cfg, state.target_profile),
            },
            _ => (state, RebuildAction::Ignored),
        },
        RebuildPhase::BootBuilding => match event {
            RebuildEvent::BootBuildFinished { status, needs_elevation } => match status {
                Some(st) => done_with(Err(Error::CommandFailed(st)), false),
                None => {
                    let boot_elevate = match needs_elevation {
                        Some(b) => b,
                        None => cfg.elevate,
                    };
                    let c = boot_activate_command(cfg, &state.target_profile, boot_elevate);
                    (
                        RebuildState {
                            phase: RebuildPhase::BootActivating,
                            target_profile: state.target_profile,
                        },
                        RebuildAction::RunBootActivate(c),
                    )
                },
            },
            _ => (state, RebuildAction::Ignored),
        },
        RebuildPhase::BootActivating => match event {
            RebuildEvent::BootActivateFinished { status } => match status {
                Some(st) => done_with(Err(Error::ActivationFailed(st)), false),
                None => done_with(Ok(()), false),
            },
            _ => (state, RebuildAction::Ignored),
        },
        RebuildPhase::Done => (state, RebuildAction::Ignored),
    }
}

/// A finished pipeline.
fn done_with(result: Result<(), Error>, warn_ask_ignored: bool) -> (r: (
    RebuildState,
    RebuildAction,
))
    ensures
        r.0.phase is Done,
        r.1 == (RebuildAction::Finish { result, warn_ask_ignored }),
{
    (
        RebuildState { phase: RebuildPhase::Done, target_profile: String::new() },
        RebuildAction::Finish { result, warn_ask_ignored },
    )
}

/// Copies an optional string with its exact content.
fn clone_opt_string(o: &Option<String>) -> (r: Option<String>)
    ensures
        r == *o,
{
    match o {
        Some(s) => Some(s.clone()),
        None => None,
    }
}

/// Whether the option is empty.
fn option_is_none(o: &Option<String>) -> (r: bool)
    ensures
        r == (o is None),
{
    match o {
        Some(_) => false,
        None => true,
    }
}

/// The comparison gate: stop successfully on a dry or build-only
/// run, ask when confirmation is requested, else continue the pipeline.
fn gate(cfg: &RebuildCfg, target: String) -> (r: (RebuildState, RebuildAction))
    ensures
        gate_ok(*cfg, r.0, r.1, target@),
        (cfg.dry || cfg.build_only) ==> r.0.phase is Done && !(r.1 is RunCopy) && !(r.1
            is RunActivate) && !(r.1 is RunBootBuild) && !(r.1 is RunBootActivate) && !(r.1
            is AskConfirmation),
{
    if cfg.dry || cfg.build_only {
        done_with(Ok(()), cfg.ask)
    } else if cfg.ask {
        (
            RebuildState { phase: RebuildPhase::Confirming, target_profile: target },
            RebuildAction::AskConfirmation,
        )
    } else {
        post_confirm(cfg, target)
    }
}

/// After confirmation: copy to the remote host when one is set, else
/// continue.
fn post_confirm(cfg: &RebuildCfg, target: String) -> (r: (RebuildState, RebuildAction))
    ensures
        post_confirm_ok(*cfg, r.0, r.1, target@),
{
    match &cfg.target_host {
        Some(host) => {
            let mut to = String::from_str("ssh://");
            to.append(host.as_str());
            proof {
                assert(to@ =~= "ssh://"@ + cfg.target_host->0@);
            }
            let c = Command::new("nix").arg("copy").arg("--to").arg(to.as_str()).arg(
                target.as_str(),
            ).message("Copying configuration to target");
            proof {
                assert(c.args.deep_view() =~= seq![
                    "copy"@,
                    "--to"@,
                    "ssh://"@ + cfg.target_host->0@,
                    target@,
                ]);
            }
            (
                RebuildState { phase: RebuildPhase::Copying, target_profile: target },
                RebuildAction::RunCopy(c),
            )
        },
        None => post_copy(cfg, target),
    }
}

/// After the copy: activate when the variant asks for it, else continue.
fn post_copy(cfg: &RebuildCfg, target: String) -> (r: (RebuildState, RebuildAction))
    ensures
        post_copy_ok(*cfg, r.0, r.1, target@),
{
    if cfg.activate {
        let c = activate_command(cfg, &target);
        (
            RebuildState { phase: RebuildPhase::Activating, target_profile: target },
            RebuildAction::RunActivate(c),
        )
    } else {
        post_activate(cfg, target)
    }
}

/// After activation: register the boot default when the variant asks for
/// it, else finish.
fn post_activate(cfg: &RebuildCfg, target: String) -> (r: (RebuildState, RebuildAction))
    ensures
        post_activate_ok(*cfg, r.0, r.1, target@),
{
    if cfg.boot {
        let c = boot_build_command(cfg, &target);
        (
            RebuildState { phase: RebuildPhase::BootBuilding, target_profile: target },
            RebuildAction::RunBootBuild(c),
        )
    } else {
        done_with(Ok(()), false)
    }
}

/// The variant's activation command over the resolved profile.
fn activate_command(cfg: &RebuildCfg, target: &String) -> (r: Command)
    ensures
        activate_cmd_ok(*cfg, r, target@),
{
    match cfg.activation_kind {
        ActivationKind::HomeActivate => {
            let program = path_join(target.as_str(), "activate");
            let mut c = Command::new(program.as_str()).message("Activating configuration");
            proof {
                assert(c.args.deep_view() =~= Seq::<Seq<char>>::empty());
                assert(crate::commands::env_model(c.env_vars@) =~= Seq::<(
                    Seq<char>,
                    crate::commands::EnvActionModel,
                )>::empty());
            }
            match &cfg.backup_extension {
                Some(e) => {
                    c.env_insert(
                        String::from_str("HOME_MANAGER_BACKUP_EXT"),
                        crate::commands::EnvAction::SetTo(e.clone()),
                    );
                    proof {
                        assert(crate::commands::env_model(c.env_vars@) =~= seq![
                            (
                                "HOME_MANAGER_BACKUP_EXT"@,
                                crate::commands::EnvActionModel::SetTo(e@),
                            ),
                        ]);
                    }
                    c
                },
                None => c,
            }
        },
        _ => {
            activate_nixos_configuration(
                target.as_str(),
                cfg.activation_mode.as_str(),
                clone_opt_string(&cfg.target_host),
                cfg.elevate,
                "Activating configuration",
            )
        },
    }
}

/// The registration of the built artifact as the system profile.
fn boot_build_command(cfg: &RebuildCfg, target: &String) -> (r: Command)
    ensures
        boot_build_cmd_ok(*cfg, r, target@),
{
    match cfg.activation_kind {
        ActivationKind::DarwinRebuild => {
            let c = Command::new("nix").arg("build").arg("--no-link").arg("--profile").arg(
                cfg.system_profile.as_str(),
            ).arg(target.as_str()).elevate(true);
            proof {
                assert(c.args.deep_view() =~= seq![
                    "build"@,
                    "--no-link"@,
                    "--profile"@,
                    cfg.system_profile@,
                    target@,
                ]);
            }
            c
        },
        _ => {
            let c = Command::new("nix").arg("build").arg("--no-link").arg("--profile").arg(
                cfg.system_profile.as_str(),
            ).arg(cfg.out_path.as_str()).elevate(cfg.elevate).ssh(
                clone_opt_string(&cfg.target_host),
            );
            proof {
                assert(c.args.deep_view() =~= seq![
                    "build"@,
                    "--no-link"@,
                    "--profile"@,
                    cfg.system_profile@,
                    cfg.out_path@,
                ]);
            }
            c
        },
    }
}

/// The boot-mode activation, or on darwin the activation itself.
fn boot_activate_command(cfg: &RebuildCfg, target: &String, boot_elevate: bool) -> (r: Command)
    ensures
        boot_activate_cmd_ok(*cfg, r, target@, boot_elevate),
{
    match cfg.activation_kind {
        ActivationKind::DarwinRebuild => {
            let program = path_join(target.as_str(), "sw/bin/darwin-rebuild");
            let c = Command::new(program.as_str()).arg("activate").message(
                "Activating configuration",
            ).elevate(boot_elevate);
            proof {
                assert(c.args.deep_view() =~= seq!["activate"@]);
            }
            c
        },
        _ => {
            activate_nixos_configuration(
                cfg.out_path.as_str(),
                "boot",
                clone_opt_string(&cfg.target_host),
                cfg.elevate,
                "Adding configuration to bootloader",
            )
        },
    }
}

/// The builder run of a configuration: built at the installable, linked
/// at the output path, with the caller's extra arguments and optional
/// remote builder; the log formatter is used unless switched off.
pub fn build_configuration(
    installable: Installable,
    out_link: &String,
    extra_args: &Vec<String>,
    builder: Option<String>,
    message: &str,
    no_nom: bool,
) -> (r: crate::commands::Build)
    ensures
        r.installable@ == installable@,
        r.extra_args.deep_view() == seq!["--out-link"@, out_link@] + extra_args.deep_view(),
        r.nom == !no_nom,
        r.builder == builder,
        r.message is Some && r.message->0@ == message@,
{
    let b = crate::commands::Build::new(installable).extra_arg(
        String::from_str("--out-link"),
    ).extra_arg(out_link.clone()).extra_args(extra_args).builder(builder).message(message).nom(
        !no_nom,
    );
    proof {
        assert(b.extra_args.deep_view() =~= seq!["--out-link"@, out_link@]
            + extra_args.deep_view());
    }
    b
}

} // verus!
