//! Command descriptions: an external program, its argument vector, an
//! environment policy, optional privilege elevation and optional remote
//! execution.  This module only builds and renders the descriptions; the
//! raw process-spawning capability that consumes them stands outside the
//! library.

use vstd::prelude::*;

use crate::installable::Installable;
use crate::installable::args_of;
use crate::installable::clone_strings;
use crate::util::push_char;

verus! {

/// What happens to one environment variable when a command runs.
#[derive(Debug)]
pub enum EnvAction {
    /// Set the variable to a specific value.
    SetTo(String),
    /// Preserve the variable from the current environment.
    Preserve,
    /// Remove the variable.
    Remove,
}

/// Mathematical content of an [`EnvAction`].
pub enum EnvActionModel {
    SetTo(Seq<char>),
    Preserve,
    Remove,
}

impl View for EnvAction {
    type V = EnvActionModel;

    open spec fn view(&self) -> EnvActionModel {
        match self {
            EnvAction::SetTo(v) => EnvActionModel::SetTo(v@),
            EnvAction::Preserve => EnvActionModel::Preserve,
            EnvAction::Remove => EnvActionModel::Remove,
        }
    }
}

impl Clone for EnvAction {
    /// An action is duplicated with its exact content.
    fn clone(&self) -> (r: Self)
        ensures
            r@ == self@,
    {
        match self {
            EnvAction::SetTo(v) => EnvAction::SetTo(v.clone()),
            EnvAction::Preserve => EnvAction::Preserve,
            EnvAction::Remove => EnvAction::Remove,
        }
    }
}

/// The environment policy as ordered key/action pairs.
pub open spec fn env_model(s: Seq<(String, EnvAction)>) -> Seq<(Seq<char>, EnvActionModel)> {
    s.map_values(|p: (String, EnvAction)| (p.0@, p.1@))
}

/// The first position holding the key, or `-1` when the key is absent.
pub open spec fn first_key_index(s: Seq<(Seq<char>, EnvActionModel)>, key: Seq<char>) -> int
    decreases s.len(),
{
    if s.len() == 0 {
        -1
    } else if s.first().0 == key {
        0
    } else {
        let rest = first_key_index(s.drop_first(), key);
        if rest < 0 {
            -1
        } else {
            rest + 1
        }
    }
}

/// What the first-position search means, spelled out.
proof fn lemma_first_key_index(s: Seq<(Seq<char>, EnvActionModel)>, key: Seq<char>)
    ensures
        first_key_index(s, key) == -1 <==> (forall|j: int| 0 <= j < s.len() ==> (#[trigger] s[j]).0
            != key),
        first_key_index(s, key) != -1 ==> {
            &&& 0 <= first_key_index(s, key) < s.len()
            &&& s[first_key_index(s, key)].0 == key
            &&& forall|j: int| 0 <= j < first_key_index(s, key) ==> (#[trigger] s[j]).0 != key
        },
    decreases s.len(),
{
    if s.len() > 0 {
        lemma_first_key_index(s.drop_first(), key);
        assert(forall|j: int|
            1 <= j < s.len() ==> (#[trigger] s[j]).0 == s.drop_first()[j - 1].0);
    }
}

/// The policy after inserting one key: the first pair carrying the key is
/// replaced in place, or the pair is appended when the key is new.
pub open spec fn env_inserted(
    s: Seq<(Seq<char>, EnvActionModel)>,
    key: Seq<char>,
    action: EnvActionModel,
) -> Seq<(Seq<char>, EnvActionModel)> {
    let i = first_key_index(s, key);
    if i < 0 {
        s.push((key, action))
    } else {
        s.update(i, (key, action))
    }
}

/// A description of an external command: what to run, with which
/// arguments, under which environment policy, elevated or not, locally or
/// through a remote shell, and whether this is a dry run that must never
/// execute.
#[derive(Debug)]
pub struct Command {
    /// Never execute; the description alone is the outcome.
    pub dry: bool,
    /// A line shown to the user when the command runs.
    pub message: Option<String>,
    /// The program to run.
    pub command: String,
    /// The argument vector, in order.
    pub args: Vec<String>,
    /// Re-invoke under higher privilege.
    pub elevate: bool,
    /// Run on this remote host, wrapping the command line as stdin to a
    /// remote shell.
    pub ssh: Option<String>,
    /// Hand the child's output through to the user.
    pub show_output: bool,
    /// The environment policy, in insertion order with unique keys.
    pub env_vars: Vec<(String, EnvAction)>,
}

impl Command {
    /// A fresh description: run `command` with no arguments, not elevated,
    /// locally, quietly, with an empty environment policy.
    pub fn new(command: &str) -> (r: Self)
        ensures
            r.command@ == command@,
            r.dry == false,
            r.message is None,
            r.args@.len() == 0,
            r.elevate == false,
            r.ssh is None,
            r.show_output == false,
            r.env_vars@.len() == 0,
    {
        Command {
            dry: false,
            message: None,
            command: String::from_str(command),
            args: Vec::new(),
            elevate: false,
            ssh: None,
            show_output: false,
            env_vars: Vec::new(),
        }
    }

    /// Requests or clears privilege elevation.
    pub fn elevate(self, elevate: bool) -> (r: Self)
        ensures
            r == (Command { elevate, ..self }),
    {
        Command { elevate, ..self }
    }

    /// Marks the description as a dry run.
    pub fn dry(self, dry: bool) -> (r: Self)
        ensures
            r == (Command { dry, ..self }),
    {
        Command { dry, ..self }
    }

    /// Chooses whether the child's output is handed through.
    pub fn show_output(self, show_output: bool) -> (r: Self)
        ensures
            r == (Command { show_output, ..self }),
    {
        Command { show_output, ..self }
    }

    /// Chooses the remote host, if any.
    pub fn ssh(self, ssh: Option<String>) -> (r: Self)
        ensures
            r == (Command { ssh, ..self }),
    {
        Command { ssh, ..self }
    }

    /// Appends one argument.
    pub fn arg(self, arg: &str) -> (r: Self)
        ensures
            r.args.deep_view() == self.args.deep_view().push(arg@),
            r.command == self.command,
            r.dry == self.dry,
            r.message == self.message,
            r.elevate == self.elevate,
            r.ssh == self.ssh,
            r.show_output == self.show_output,
            r.env_vars == self.env_vars,
    {
        let mut args = self.args;
        let ghost before = args.deep_view();
        args.push(String::from_str(arg));
        proof {
            assert(args.deep_view() =~= before.push(arg@));
        }
        Command { args, ..self }
    }

    /// Appends several arguments, in order.
    pub fn args(self, more: &Vec<String>) -> (r: Self)
        ensures
            r.args.deep_view() == self.args.deep_view() + more.deep_view(),
            r.command == self.command,
            r.dry == self.dry,
            r.message == self.message,
            r.elevate == self.elevate,
            r.ssh == self.ssh,
            r.show_output == self.show_output,
            r.env_vars == self.env_vars,
    {
        let mut args = self.args;
        let ghost base = args.deep_view();
        let mut i: usize = 0;
        while i < more.len()
            invariant
                i <= more.len(),
                args.deep_view() =~= base + more.deep_view().subrange(0, i as int),
            decreases more.len() - i,
        {
            let ghost before = args.deep_view();
            args.push(more[i].clone());
            proof {
                assert(args.deep_view() =~= before.push(more.deep_view()[i as int]));
                assert(args.deep_view() =~= base + more.deep_view().subrange(0, i + 1));
            }
            i = i + 1;
        }
        proof {
            assert(more.deep_view().subrange(0, more.len() as int) =~= more.deep_view());
        }
        Command { args, ..self }
    }

    /// Sets the line shown to the user when the command runs.
    pub fn message(self, message: &str) -> (r: Self)
        ensures
            r.message is Some && r.message->0@ == message@,
            r.command == self.command,
            r.dry == self.dry,
            r.args == self.args,
            r.elevate == self.elevate,
            r.ssh == self.ssh,
            r.show_output == self.show_output,
            r.env_vars == self.env_vars,
    {
        Command { message: Some(String::from_str(message)), ..self }
    }

    /// Inserts one key/action pair into the environment policy: the first
    /// pair already carrying the key is replaced, a new key is appended.
    pub fn env_insert(&mut self, key: String, action: EnvAction)
        ensures
            env_model(final(self).env_vars@) == env_inserted(
                env_model(old(self).env_vars@),
                key@,
                action@,
            ),
            final(self).command == old(self).command,
            final(self).dry == old(self).dry,
            final(self).message == old(self).message,
            final(self).args == old(self).args,
            final(self).elevate == old(self).elevate,
            final(self).ssh == old(self).ssh,
            final(self).show_output == old(self).show_output,
    {
        let ghost model = env_model(self.env_vars@);
        proof {
            lemma_first_key_index(model, key@);
        }
        let mut i: usize = 0;
        let n = self.env_vars.len();
        while i < n
            invariant
                i <= n,
                n == self.env_vars@.len(),
                self.env_vars@ == old(self).env_vars@,
                self.command == old(self).command,
                self.dry == old(self).dry,
                self.message == old(self).message,
                self.args == old(self).args,
                self.elevate == old(self).elevate,
                self.ssh == old(self).ssh,
                self.show_output == old(self).show_output,
                model == env_model(self.env_vars@),
                forall|j: int| 0 <= j < i ==> (#[trigger] model[j]).0 != key@,
            decreases n - i,
    {
            if string_eq(&self.env_vars[i].0, &key) {
                assert(model[i as int].0 == key@);
                assert(first_key_index(model, key@) == i as int) by {
                    lemma_first_key_index(model, key@);
                }
                self.env_vars.set(i, (key, action));
                proof {
                    assert(env_model(self.env_vars@) =~= env_inserted(model, key@, action@));
                }
                return ;
            }
            i = i + 1;
        }
        assert(first_key_index(model, key@) == -1) by {
            lemma_first_key_index(model, key@);
        }
        let ghost before = self.env_vars@;
        self.env_vars.push((key, action));
        proof {
            assert(env_model(self.env_vars@) =~= env_inserted(model, key@, action@));
        }
    }
}

/// The keys the policy preserves from the ambient environment, in order.
pub open spec fn preserve_keys(s: Seq<(Seq<char>, EnvActionModel)>) -> Seq<Seq<char>>
    decreases s.len(),
{
    if s.len() == 0 {
        Seq::empty()
    } else if s.last().1 is Preserve {
        preserve_keys(s.drop_last()).push(s.last().0)
    } else {
        preserve_keys(s.drop_last())
    }
}

/// The key/value pairs the policy sets explicitly, in order.
pub open spec fn set_pairs(s: Seq<(Seq<char>, EnvActionModel)>) -> Seq<(Seq<char>, Seq<char>)>
    decreases s.len(),
{
    if s.len() == 0 {
        Seq::empty()
    } else if s.last().1 is SetTo {
        set_pairs(s.drop_last()).push((s.last().0, s.last().1->SetTo_0))
    } else {
        set_pairs(s.drop_last())
    }
}

/// Names joined with commas.
pub open spec fn comma_join(keys: Seq<Seq<char>>) -> Seq<char>
    decreases keys.len(),
{
    if keys.len() == 0 {
        Seq::empty()
    } else if keys.len() == 1 {
        keys[0]
    } else {
        comma_join(keys.drop_last()) + seq![','] + keys.last()
    }
}

/// What the ambient platform offers for building a privileged invocation:
/// whether this is the host flavour that prefers `--set-home`, whether its
/// elevation program understands `--preserve-env`, and an optional askpass
/// helper.
pub struct SudoCaps {
    pub macos: bool,
    pub has_preserve_env: bool,
    pub askpass: Option<String>,
}

/// The argument vector of the privileged-invocation wrapper.  One host
/// flavour normalises the home directory and, when supported, preserves a
/// caller-supplied set with one flag; the other enumerates the preserve
/// list as a flag value.  The askpass helper adds its flag, and explicitly
/// set variables are re-stated after an `env` word.
pub open spec fn sudo_args(
    env: Seq<(Seq<char>, EnvActionModel)>,
    macos: bool,
    has_preserve_env: bool,
    has_askpass: bool,
) -> Seq<Seq<char>> {
    let pres = preserve_keys(env);
    let sets = set_pairs(env);
    let base: Seq<Seq<char>> = if macos {
        if has_preserve_env && pres.len() > 0 {
            seq!["--set-home"@, "--preserve-env="@ + comma_join(pres), "env"@]
        } else {
            seq!["--set-home"@]
        }
    } else {
        if pres.len() > 0 {
            seq!["--preserve-env="@ + comma_join(pres)]
        } else {
            Seq::empty()
        }
    };
    let with_askpass: Seq<Seq<char>> = if has_askpass {
        base.push("-A"@)
    } else {
        base
    };
    if sets.len() > 0 {
        with_askpass + seq!["env"@] + sets.map_values(|p: (Seq<char>, Seq<char>)| p.0 + seq!['=']
            + p.1)
    } else {
        with_askpass
    }
}

/// The environment pairs of the privileged wrapper itself: only the
/// askpass helper, when one is configured.
pub open spec fn askpass_env(askpass: Option<Seq<char>>) -> Seq<(Seq<char>, EnvActionModel)> {
    match askpass {
        Some(v) => seq![("SUDO_ASKPASS"@, EnvActionModel::SetTo(v))],
        None => Seq::empty(),
    }
}

/// A rendered command: the program, its exact argument vector, and the
/// environment pairs applied when it runs.  What executes this is outside
/// the library.
#[derive(Debug)]
pub struct Invocation {
    pub program: String,
    pub args: Vec<String>,
    pub env: Vec<(String, EnvAction)>,
}

impl Command {
    /// Builds the privileged-invocation wrapper for this description, per
    /// the platform's capabilities.
    pub fn build_sudo_cmd(&self, caps: &SudoCaps) -> (r: Invocation)
        ensures
            r.program@ == "sudo"@,
            r.args.deep_view() == sudo_args(
                env_model(self.env_vars@),
                caps.macos,
                caps.has_preserve_env,
                caps.askpass is Some,
            ),
            env_model(r.env@) == askpass_env(
                match caps.askpass {
                    Some(v) => Some(v@),
                    None => None,
                },
            ),
    {
        let ghost model = env_model(self.env_vars@);
        let mut pres: Vec<String> = Vec::new();
        let mut sets: Vec<(String, String)> = Vec::new();
        let mut i: usize = 0;
        let n = self.env_vars.len();
        while i < n
            invariant
                i <= n,
                n == self.env_vars@.len(),
                model == env_model(self.env_vars@),
                pres.deep_view() =~= preserve_keys(model.subrange(0, i as int)),
                sets.deep_view() =~= set_pairs(model.subrange(0, i as int)),
            decreases n - i,
        {
            let ghost upto = model.subrange(0, i as int);
            proof {
                assert(model.subrange(0, i + 1).drop_last() =~= upto);
                assert(model.subrange(0, i + 1).last() == model[i as int]);
            }
            match &self.env_vars[i].1 {
                EnvAction::Preserve => {
                    let ghost before = pres.deep_view();
                    pres.push(self.env_vars[i].0.clone());
                    proof {
                        assert(pres.deep_view() =~= before.push(model[i as int].0));
                    }
                },
                EnvAction::SetTo(v) => {
                    let ghost before = sets.deep_view();
                    sets.push((self.env_vars[i].0.clone(), v.clone()));
                    proof {
                        assert(sets.deep_view() =~= before.push(
                            (model[i as int].0, model[i as int].1->SetTo_0),
                        ));
                    }
                },
                EnvAction::Remove => {
                },
            }
            i = i + 1;
        }
        proof {
            assert(model.subrange(0, n as int) =~= model);
        }
        let mut args: Vec<String> = Vec::new();
        if caps.macos {
            args.push(String::from_str("--set-home"));
            if caps.has_preserve_env && pres.len() > 0 {
                args.push(preserve_env_flag(&pres));
                args.push(String::from_str("env"));
            }
        } else {
            if pres.len() > 0 {
                args.push(preserve_env_flag(&pres));
            }
        }
        let mut env: Vec<(String, EnvAction)> = Vec::new();
        match &caps.askpass {
            Some(helper) => {
                env.push((String::from_str("SUDO_ASKPASS"), EnvAction::SetTo(helper.clone())));
                args.push(String::from_str("-A"));
            },
            None => {
            },
        }
        let ghost with_askpass = args.deep_view();
        if sets.len() > 0 {
            args.push(String::from_str("env"));
            let mut k: usize = 0;
            while k < sets.len()
                invariant
                    k <= sets.len(),
                    sets.deep_view() == set_pairs(model),
                    args.deep_view() =~= with_askpass + seq!["env"@] + set_pairs(model).subrange(
                        0,
                        k as int,
                    ).map_values(|p: (Seq<char>, Seq<char>)| p.0 + seq!['='] + p.1),
                decreases sets.len() - k,
            {
                let ghost before = args.deep_view();
                let mut pair = sets[k].0.clone();
                push_eq_char(&mut pair);
                pair.append(sets[k].1.as_str());
                args.push(pair);
                proof {
                    let f = |p: (Seq<char>, Seq<char>)| p.0 + seq!['='] + p.1;
                    assert(pair@ =~= f(set_pairs(model)[k as int]));
                    assert(args.deep_view() =~= before.push(f(set_pairs(model)[k as int])));
                    assert(set_pairs(model).subrange(0, k + 1) =~= set_pairs(model).subrange(
                        0,
                        k as int,
                    ).push(set_pairs(model)[k as int]));
                }
                k = k + 1;
            }
            proof {
                assert(set_pairs(model).subrange(0, set_pairs(model).len() as int) =~= set_pairs(
                    model,
                ));
            }
        }
        let r = Invocation { program: String::from_str("sudo"), args, env };
        proof {
            assert(r.args.deep_view() =~= sudo_args(
                model,
                caps.macos,
                caps.has_preserve_env,
                caps.askpass is Some,
            ));
            assert(env_model(r.env@) =~= askpass_env(
                match caps.askpass {
                    Some(v) => Some(v@),
                    None => None,
                },
            ));
        }
        r
    }
}

/// Renders `--preserve-env=` followed by the names joined with commas.
fn preserve_env_flag(keys: &Vec<String>) -> (r: String)
    ensures
        r@ == "--preserve-env="@ + comma_join(keys.deep_view()),
{
    let ghost all = keys.deep_view();
    let mut r = String::from_str("--preserve-env=");
    let mut k: usize = 0;
    while k < keys.len()
        invariant
            k <= keys.len(),
            all == keys.deep_view(),
            r@ == "--preserve-env="@ + comma_join(all.subrange(0, k as int)),
        decreases keys.len() - k,
    {
        if k > 0 {
            push_char(&mut r, ',');
        }
        r.append(keys[k].as_str());
        proof {
            let upto = all.subrange(0, k + 1);
            assert(upto.drop_last() =~= all.subrange(0, k as int));
            assert(upto.last() == all[k as int]);
            if k == 0 {
                assert(comma_join(upto) == all[0]);
                assert(r@ =~= "--preserve-env="@ + comma_join(upto));
            } else {
                assert(comma_join(upto) == comma_join(all.subrange(0, k as int)) + seq![',']
                    + all[k as int]);
                assert(r@ =~= "--preserve-env="@ + comma_join(upto));
            }
        }
        k = k + 1;
    }
    proof {
        assert(all.subrange(0, all.len() as int) =~= all);
    }
    r
}

/// Appends the `=` of a `KEY=VALUE` environment argument.
fn push_eq_char(s: &mut String)
    ensures
        final(s)@ == old(s)@ + seq!['='],
{
    push_char(s, '=');
    proof {
        assert(old(s)@.push('=') =~= old(s)@ + seq!['=']);
    }
}

/// Whether two strings hold the same characters.
pub fn string_eq(a: &String, b: &String) -> (r: bool)
    ensures
        r == (a@ == b@),
{
    crate::util::str_eq(a.as_str(), b.as_str())
}

/// The policy after marking each key, in order, as preserved.
pub open spec fn preserves_applied(
    s: Seq<(Seq<char>, EnvActionModel)>,
    keys: Seq<Seq<char>>,
) -> Seq<(Seq<char>, EnvActionModel)>
    decreases keys.len(),
{
    if keys.len() == 0 {
        s
    } else {
        preserves_applied(
            env_inserted(s, keys.first(), EnvActionModel::Preserve),
            keys.drop_first(),
        )
    }
}

/// Marking keys one more at the end equals inserting it after the rest.
proof fn lemma_preserves_applied_snoc(
    s: Seq<(Seq<char>, EnvActionModel)>,
    keys: Seq<Seq<char>>,
    key: Seq<char>,
)
    ensures
        preserves_applied(s, keys.push(key)) == env_inserted(
            preserves_applied(s, keys),
            key,
            EnvActionModel::Preserve,
        ),
    decreases keys.len(),
{
    let stepped = env_inserted(s, keys.push(key).first(), EnvActionModel::Preserve);
    assert(preserves_applied(s, keys.push(key)) == preserves_applied(
        stepped,
        keys.push(key).drop_first(),
    ));
    if keys.len() == 0 {
        assert(keys.push(key).first() == key);
        assert(keys.push(key).drop_first() =~= Seq::<Seq<char>>::empty());
        assert(preserves_applied(
            env_inserted(s, key, EnvActionModel::Preserve),
            Seq::<Seq<char>>::empty(),
        ) == env_inserted(s, key, EnvActionModel::Preserve));
    } else {
        assert(keys.push(key).first() == keys.first());
        assert(keys.push(key).drop_first() =~= keys.drop_first().push(key));
        lemma_preserves_applied_snoc(
            env_inserted(s, keys.first(), EnvActionModel::Preserve),
            keys.drop_first(),
            key,
        );
    }
}

/// Whether a key belongs to this tool's own configuration namespace.
pub open spec fn is_nh_key(k: Seq<char>) -> bool {
    k.len() >= 3 && k[0] == 'N' && k[1] == 'H' && k[2] == '_'
}

/// The policy after setting, in order, every ambient pair whose key lies
/// in the tool's namespace.
pub open spec fn nh_env_applied(
    s: Seq<(Seq<char>, EnvActionModel)>,
    pairs: Seq<(Seq<char>, Seq<char>)>,
) -> Seq<(Seq<char>, EnvActionModel)>
    decreases pairs.len(),
{
    if pairs.len() == 0 {
        s
    } else {
        let rest = if is_nh_key(pairs.first().0) {
            env_inserted(s, pairs.first().0, EnvActionModel::SetTo(pairs.first().1))
        } else {
            s
        };
        nh_env_applied(rest, pairs.drop_first())
    }
}

/// Handling one more ambient pair at the end equals handling it after the
/// rest.
proof fn lemma_nh_env_applied_snoc(
    s: Seq<(Seq<char>, EnvActionModel)>,
    pairs: Seq<(Seq<char>, Seq<char>)>,
    pair: (Seq<char>, Seq<char>),
)
    ensures
        nh_env_applied(s, pairs.push(pair)) == {
            let done = nh_env_applied(s, pairs);
            if is_nh_key(pair.0) {
                env_inserted(done, pair.0, EnvActionModel::SetTo(pair.1))
            } else {
                done
            }
        },
    decreases pairs.len(),
{
    let head = pairs.push(pair).first();
    let stepped = if is_nh_key(head.0) {
        env_inserted(s, head.0, EnvActionModel::SetTo(head.1))
    } else {
        s
    };
    assert(nh_env_applied(s, pairs.push(pair)) == nh_env_applied(
        stepped,
        pairs.push(pair).drop_first(),
    ));
    if pairs.len() == 0 {
        assert(pairs.push(pair).first() == pair);
        assert(pairs.push(pair).drop_first() =~= Seq::<(Seq<char>, Seq<char>)>::empty());
        assert(nh_env_applied(stepped, Seq::<(Seq<char>, Seq<char>)>::empty()) == stepped);
    } else {
        assert(pairs.push(pair).first() == pairs.first());
        assert(pairs.push(pair).drop_first() =~= pairs.drop_first().push(pair));
        lemma_nh_env_applied_snoc(stepped, pairs.drop_first(), pair);
    }
}

/// The environment policy of a builder invocation: the caller's home and
/// user identity set explicitly when known, and the builder's own
/// configuration variables preserved from the ambient environment.
pub open spec fn nix_env_applied(
    s: Seq<(Seq<char>, EnvActionModel)>,
    home: Option<Seq<char>>,
    user: Option<Seq<char>>,
) -> Seq<(Seq<char>, EnvActionModel)> {
    let s1 = match home {
        Some(h) => env_inserted(s, "HOME"@, EnvActionModel::SetTo(h)),
        None => s,
    };
    let s2 = match user {
        Some(u) => env_inserted(s1, "USER"@, EnvActionModel::SetTo(u)),
        None => s1,
    };
    preserves_applied(
        s2,
        seq![
            "PATH"@,
            "NIX_CONFIG"@,
            "NIX_PATH"@,
            "NIX_REMOTE"@,
            "NIX_SSL_CERT_FILE"@,
            "NIX_USER_CONF_FILES"@,
        ],
    )
}

impl Command {
    /// Marks each given variable, in order, as preserved from the ambient
    /// environment.
    pub fn preserve_envs(self, keys: &Vec<String>) -> (r: Self)
        ensures
            env_model(r.env_vars@) == preserves_applied(env_model(self.env_vars@), keys.deep_view()),
            r.command == self.command,
            r.dry == self.dry,
            r.message == self.message,
            r.args == self.args,
            r.elevate == self.elevate,
            r.ssh == self.ssh,
            r.show_output == self.show_output,
    {
        let ghost start = env_model(self.env_vars@);
        let ghost all = keys.deep_view();
        let mut c = self;
        let mut i: usize = 0;
        proof {
            assert(all.subrange(0, 0) =~= Seq::<Seq<char>>::empty());
        }
        while i < keys.len()
            invariant
                i <= keys.len(),
                all == keys.deep_view(),
                env_model(c.env_vars@) == preserves_applied(start, all.subrange(0, i as int)),
                c.command == self.command,
                c.dry == self.dry,
                c.message == self.message,
                c.args == self.args,
                c.elevate == self.elevate,
                c.ssh == self.ssh,
                c.show_output == self.show_output,
            decreases keys.len() - i,
        {
            c.env_insert(keys[i].clone(), EnvAction::Preserve);
            proof {
                assert(all.subrange(0, i + 1) =~= all.subrange(0, i as int).push(all[i as int]));
                lemma_preserves_applied_snoc(start, all.subrange(0, i as int), all[i as int]);
            }
            i = i + 1;
        }
        proof {
            assert(all.subrange(0, all.len() as int) =~= all);
        }
        c
    }

    /// Configures the environment for builder operations: sets the
    /// caller's home and user identity when known, and preserves the
    /// builder's own configuration variables.
    pub fn with_nix_env(self, home: Option<String>, user: Option<String>) -> (r: Self)
        ensures
            env_model(r.env_vars@) == nix_env_applied(
                env_model(self.env_vars@),
                match home {
                    Some(h) => Some(h@),
                    None => None,
                },
                match user {
                    Some(u) => Some(u@),
                    None => None,
                },
            ),
            r.command == self.command,
            r.dry == self.dry,
            r.message == self.message,
            r.args == self.args,
            r.elevate == self.elevate,
            r.ssh == self.ssh,
            r.show_output == self.show_output,
    {
        let mut c = self;
        match home {
            Some(h) => {
                c.env_insert(String::from_str("HOME"), EnvAction::SetTo(h));
            },
            None => {
            },
        }
        match user {
            Some(u) => {
                c.env_insert(String::from_str("USER"), EnvAction::SetTo(u));
            },
            None => {
            },
        }
        let mut keys: Vec<String> = Vec::new();
        keys.push(String::from_str("PATH"));
        keys.push(String::from_str("NIX_CONFIG"));
        keys.push(String::from_str("NIX_PATH"));
        keys.push(String::from_str("NIX_REMOTE"));
        keys.push(String::from_str("NIX_SSL_CERT_FILE"));
        keys.push(String::from_str("NIX_USER_CONF_FILES"));
        proof {
            assert(keys.deep_view() =~= seq![
                "PATH"@,
                "NIX_CONFIG"@,
                "NIX_PATH"@,
                "NIX_REMOTE"@,
                "NIX_SSL_CERT_FILE"@,
                "NIX_USER_CONF_FILES"@,
            ]);
        }
        c.preserve_envs(&keys)
    }

    /// Sets every ambient variable of the tool's own namespace (`NH_*`),
    /// in the order given.
    pub fn with_nh_env(self, ambient: &Vec<(String, String)>) -> (r: Self)
        ensures
            env_model(r.env_vars@) == nh_env_applied(
                env_model(self.env_vars@),
                ambient.deep_view(),
            ),
            r.command == self.command,
            r.dry == self.dry,
            r.message == self.message,
            r.args == self.args,
            r.elevate == self.elevate,
            r.ssh == self.ssh,
            r.show_output == self.show_output,
    {
        let ghost start = env_model(self.env_vars@);
        let ghost all = ambient.deep_view();
        let mut c = self;
        let mut i: usize = 0;
        proof {
            assert(all.subrange(0, 0) =~= Seq::<(Seq<char>, Seq<char>)>::empty());
        }
        while i < ambient.len()
            invariant
                i <= ambient.len(),
                all == ambient.deep_view(),
                env_model(c.env_vars@) == nh_env_applied(start, all.subrange(0, i as int)),
                c.command == self.command,
                c.dry == self.dry,
                c.message == self.message,
                c.args == self.args,
                c.elevate == self.elevate,
                c.ssh == self.ssh,
                c.show_output == self.show_output,
            decreases ambient.len() - i,
        {
            let key = &ambient[i].0;
            let n = key.as_str().unicode_len();
            let nh = n >= 3 && key.as_str().get_char(0) == 'N' && key.as_str().get_char(1) == 'H'
                && key.as_str().get_char(2) == '_';
            assert(nh == is_nh_key(all[i as int].0));
            if nh {
                c.env_insert(key.clone(), EnvAction::SetTo(ambient[i].1.clone()));
            }
            proof {
                assert(all.subrange(0, i + 1) =~= all.subrange(0, i as int).push(all[i as int]));
                lemma_nh_env_applied_snoc(start, all.subrange(0, i as int), all[i as int]);
            }
            i = i + 1;
        }
        proof {
            assert(all.subrange(0, all.len() as int) =~= all);
        }
        c
    }

    /// Renders the description into the invocation that runs it: elevated
    /// descriptions run under the privileged wrapper (which re-states the
    /// policy itself), everything else runs the program directly under the
    /// policy.
    pub fn to_invocation(&self, caps: &SudoCaps) -> (r: Invocation)
        ensures
            self.elevate ==> {
                &&& r.program@ == "sudo"@
                &&& r.args.deep_view() == sudo_args(
                    env_model(self.env_vars@),
                    caps.macos,
                    caps.has_preserve_env,
                    caps.askpass is Some,
                ).push(self.command@) + self.args.deep_view()
                &&& env_model(r.env@) == askpass_env(
                    match caps.askpass {
                        Some(v) => Some(v@),
                        None => None,
                    },
                )
            },
            !self.elevate ==> {
                &&& r.program@ == self.command@
                &&& r.args.deep_view() == self.args.deep_view()
                &&& env_model(r.env@) == env_model(self.env_vars@)
            },
    {
        if self.elevate {
            let mut inv = self.build_sudo_cmd(caps);
            let ghost base = inv.args.deep_view();
            inv.args.push(self.command.clone());
            proof {
                assert(inv.args.deep_view() =~= base.push(self.command@));
            }
            let ghost mid = inv.args.deep_view();
            let mut k: usize = 0;
            while k < self.args.len()
                invariant
                    k <= self.args@.len(),
                    inv.args.deep_view() =~= mid + self.args.deep_view().subrange(0, k as int),
                    inv.program@ == "sudo"@,
                    env_model(inv.env@) == askpass_env(
                        match caps.askpass {
                            Some(v) => Some(v@),
                            None => None,
                        },
                    ),
                decreases self.args@.len() - k,
            {
                let ghost before = inv.args.deep_view();
                inv.args.push(self.args[k].clone());
                proof {
                    assert(inv.args.deep_view() =~= before.push(self.args.deep_view()[k as int]));
                    assert(inv.args.deep_view() =~= mid + self.args.deep_view().subrange(
                        0,
                        k + 1,
                    ));
                }
                k = k + 1;
            }
            proof {
                assert(self.args.deep_view().subrange(0, self.args@.len() as int)
                    =~= self.args.deep_view());
            }
            inv
        } else {
            Invocation {
                program: self.command.clone(),
                args: clone_strings(&self.args),
                env: clone_env(&self.env_vars),
            }
        }
    }
}

/// Copies an environment policy with its exact content.
fn clone_env(v: &Vec<(String, EnvAction)>) -> (r: Vec<(String, EnvAction)>)
    ensures
        env_model(r@) == env_model(v@),
{
    let mut out: Vec<(String, EnvAction)> = Vec::new();
    let mut i: usize = 0;
    while i < v.len()
        invariant
            i <= v.len(),
            env_model(out@) =~= env_model(v@).subrange(0, i as int),
        decreases v.len() - i,
    {
        let ghost before = env_model(out@);
        out.push((v[i].0.clone(), v[i].1.clone()));
        proof {
            assert(env_model(out@) =~= before.push(env_model(v@)[i as int]));
            assert(env_model(out@) =~= env_model(v@).subrange(0, i + 1));
        }
        i = i + 1;
    }
    proof {
        assert(env_model(v@).subrange(0, v@.len() as int) =~= env_model(v@));
    }
    out
}

impl Command {
    /// The invocation that re-runs this tool itself under elevation: the
    /// privileged wrapper over the builder environment and the tool's own
    /// namespace variables, then the executable and its original arguments.
    pub fn self_elevate_cmd(
        current_exe: &str,
        argv: &Vec<String>,
        home: Option<String>,
        user: Option<String>,
        ambient: &Vec<(String, String)>,
        caps: &SudoCaps,
    ) -> (r: Invocation)
        ensures
            r.program@ == "sudo"@,
            r.args.deep_view() == sudo_args(
                nh_env_applied(
                    nix_env_applied(
                        Seq::empty(),
                        match home {
                            Some(h) => Some(h@),
                            None => None,
                        },
                        match user {
                            Some(u) => Some(u@),
                            None => None,
                        },
                    ),
                    ambient.deep_view(),
                ),
                caps.macos,
                caps.has_preserve_env,
                caps.askpass is Some,
            ).push(current_exe@) + argv.deep_view(),
            env_model(r.env@) == askpass_env(
                match caps.askpass {
                    Some(v) => Some(v@),
                    None => None,
                },
            ),
    {
        let fresh = Command::new(current_exe);
        proof {
            assert(env_model(fresh.env_vars@) =~= Seq::<(Seq<char>, EnvActionModel)>::empty());
        }
        let c = fresh.elevate(true).with_nix_env(home, user).with_nh_env(ambient);
        let mut inv = c.to_invocation(caps);
        let ghost base = inv.args.deep_view();
        proof {
            assert(c.args.deep_view() =~= Seq::<Seq<char>>::empty());
            assert(base + c.args.deep_view() =~= base);
        }
        let mut i: usize = 0;
        while i < argv.len()
            invariant
                i <= argv@.len(),
                inv.args.deep_view() =~= base + argv.deep_view().subrange(0, i as int),
                inv.program@ == "sudo"@,
                env_model(inv.env@) == askpass_env(
                    match caps.askpass {
                        Some(v) => Some(v@),
                        None => None,
                    },
                ),
            decreases argv@.len() - i,
        {
            let ghost before = inv.args.deep_view();
            inv.args.push(argv[i].clone());
            proof {
                assert(inv.args.deep_view() =~= before.push(argv.deep_view()[i as int]));
                assert(inv.args.deep_view() =~= base + argv.deep_view().subrange(0, i + 1));
            }
            i = i + 1;
        }
        proof {
            assert(argv.deep_view().subrange(0, argv@.len() as int) =~= argv.deep_view());
        }
        inv
    }
}

/// A description of one build of the external builder: the installable to
/// build, extra arguments, an optional remote builder, and whether the
/// build log is piped through the log formatter.
#[derive(Debug)]
pub struct Build {
    pub message: Option<String>,
    pub installable: Installable,
    pub extra_args: Vec<String>,
    pub nom: bool,
    pub builder: Option<String>,
}

/// The exact argument vector of the builder invocation: the build
/// subcommand, the installable's rendered arguments, the remote-builder
/// arguments when one is named, the extra arguments, and the log-format
/// flags when the log is piped through the formatter.
pub open spec fn nix_build_args(b: Build) -> Seq<Seq<char>> {
    let base = seq!["build"@] + args_of(b.installable@);
    let with_builder = match b.builder {
        Some(host) => base + seq!["--builders"@, "ssh://"@ + host@ + " - - - 100"@],
        None => base,
    };
    let with_extra = with_builder + b.extra_args.deep_view();
    if b.nom {
        with_extra + seq!["--log-format"@, "internal-json"@, "--verbose"@]
    } else {
        with_extra
    }
}

impl Build {
    /// A fresh build description for the installable: no message, no
    /// extra arguments, no remote builder, log formatter off.
    pub fn new(installable: Installable) -> (r: Self)
        ensures
            r.installable == installable,
            r.message is None,
            r.extra_args@.len() == 0,
            r.nom == false,
            r.builder is None,
    {
        Build { message: None, installable, extra_args: Vec::new(), nom: false, builder: None }
    }

    /// Sets the line shown to the user when the build starts.
    pub fn message(self, message: &str) -> (r: Self)
        ensures
            r.message is Some && r.message->0@ == message@,
            r.installable == self.installable,
            r.extra_args == self.extra_args,
            r.nom == self.nom,
            r.builder == self.builder,
    {
        Build { message: Some(String::from_str(message)), ..self }
    }

    /// Appends one extra argument.
    pub fn extra_arg(self, arg: String) -> (r: Self)
        ensures
            r.extra_args.deep_view() == self.extra_args.deep_view().push(arg@),
            r.installable == self.installable,
            r.message == self.message,
            r.nom == self.nom,
            r.builder == self.builder,
    {
        let mut extra_args = self.extra_args;
        let ghost before = extra_args.deep_view();
        extra_args.push(arg);
        proof {
            assert(extra_args.deep_view() =~= before.push(arg@));
        }
        Build { extra_args, ..self }
    }

    /// Chooses whether the build log is piped through the log formatter.
    pub fn nom(self, yes: bool) -> (r: Self)
        ensures
            r == (Build { nom: yes, ..self }),
    {
        Build { nom: yes, ..self }
    }

    /// Chooses the remote builder, if any.
    pub fn builder(self, builder: Option<String>) -> (r: Self)
        ensures
            r == (Build { builder, ..self }),
    {
        Build { builder, ..self }
    }

    /// Appends several extra arguments, in order.
    pub fn extra_args(self, more: &Vec<String>) -> (r: Self)
        ensures
            r.extra_args.deep_view() == self.extra_args.deep_view() + more.deep_view(),
            r.installable == self.installable,
            r.message == self.message,
            r.nom == self.nom,
            r.builder == self.builder,
    {
        let mut extra_args = self.extra_args;
        let ghost base = extra_args.deep_view();
        let mut i: usize = 0;
        while i < more.len()
            invariant
                i <= more.len(),
                extra_args.deep_view() =~= base + more.deep_view().subrange(0, i as int),
            decreases more.len() - i,
        {
            let ghost before = extra_args.deep_view();
            extra_args.push(more[i].clone());
            proof {
                assert(extra_args.deep_view() =~= before.push(more.deep_view()[i as int]));
                assert(extra_args.deep_view() =~= base + more.deep_view().subrange(0, i + 1));
            }
            i = i + 1;
        }
        proof {
            assert(more.deep_view().subrange(0, more.len() as int) =~= more.deep_view());
        }
        Build { extra_args, ..self }
    }

    /// Renders the builder invocation for this description.
    pub fn to_invocation(&self) -> (r: Invocation)
        ensures
            r.program@ == "nix"@,
            r.args.deep_view() == nix_build_args(*self),
            r.env@.len() == 0,
    {
        let mut args: Vec<String> = Vec::new();
        args.push(String::from_str("build"));
        let mut installable_args = self.installable.to_args();
        let ghost ia = installable_args.deep_view();
        let mut k: usize = 0;
        while k < installable_args.len()
            invariant
                k <= installable_args@.len(),
                installable_args.deep_view() == ia,
                args.deep_view() =~= seq!["build"@] + ia.subrange(0, k as int),
            decreases installable_args@.len() - k,
        {
            let ghost before = args.deep_view();
            args.push(installable_args[k].clone());
            proof {
                assert(args.deep_view() =~= before.push(ia[k as int]));
                assert(args.deep_view() =~= seq!["build"@] + ia.subrange(0, k + 1));
            }
            k = k + 1;
        }
        proof {
            assert(ia.subrange(0, ia.len() as int) =~= ia);
        }
        match &self.builder {
            Some(host) => {
                args.push(String::from_str("--builders"));
                let mut spec_arg = String::from_str("ssh://");
                spec_arg.append(host.as_str());
                spec_arg.append(" - - - 100");
                let ghost before = args.deep_view();
                args.push(spec_arg);
                proof {
                    assert(args.deep_view() =~= before.push("ssh://"@ + host@ + " - - - 100"@));
                }
            },
            None => {
            },
        }
        let ghost with_builder = args.deep_view();
        let mut k2: usize = 0;
        while k2 < self.extra_args.len()
            invariant
                k2 <= self.extra_args@.len(),
                args.deep_view() =~= with_builder + self.extra_args.deep_view().subrange(
                    0,
                    k2 as int,
                ),
            decreases self.extra_args@.len() - k2,
        {
            let ghost before = args.deep_view();
            args.push(self.extra_args[k2].clone());
            proof {
                assert(args.deep_view() =~= before.push(
                    self.extra_args.deep_view()[k2 as int],
                ));
                assert(args.deep_view() =~= with_builder + self.extra_args.deep_view().subrange(
                    0,
                    k2 + 1,
                ));
            }
            k2 = k2 + 1;
        }
        proof {
            assert(self.extra_args.deep_view().subrange(0, self.extra_args@.len() as int)
                =~= self.extra_args.deep_view());
        }
        if self.nom {
            let ghost b0 = args.deep_view();
            args.push(String::from_str("--log-format"));
            proof {
                assert(args.deep_view() =~= b0.push("--log-format"@));
            }
            let ghost b1 = args.deep_view();
            args.push(String::from_str("internal-json"));
            proof {
                assert(args.deep_view() =~= b1.push("internal-json"@));
            }
            let ghost b2 = args.deep_view();
            args.push(String::from_str("--verbose"));
            proof {
                assert(args.deep_view() =~= b2.push("--verbose"@));
            }
        }
        let r = Invocation { program: String::from_str("nix"), args, env: Vec::new() };
        proof {
            assert(r.args.deep_view() =~= nix_build_args(*self));
        }
        r
    }
}

} // verus!
