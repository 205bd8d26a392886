//! Interface to the machine-level configuration manager: its argument
//! grammar and the exact command lines handed to it.

use vstd::prelude::*;

use crate::commands::Command;
use crate::error::Error;
use crate::util::str_eq;

verus! {

/// The flags of a machine-level configuration build.
#[derive(Debug, PartialEq, Eq)]
pub struct SystemBuildArgs {
    pub flake: Option<String>,
    pub switch: bool,
    pub dry_activate: bool,
    pub no_link: bool,
    pub ssh: Option<String>,
    pub install_host: Option<String>,
}

/// Mathematical content of [`SystemBuildArgs`].
pub struct SystemBuildModel {
    pub flake: Option<Seq<char>>,
    pub switch: bool,
    pub dry_activate: bool,
    pub no_link: bool,
    pub ssh: Option<Seq<char>>,
    pub install_host: Option<Seq<char>>,
}

impl View for SystemBuildArgs {
    type V = SystemBuildModel;

    open spec fn view(&self) -> SystemBuildModel {
        SystemBuildModel {
            flake: match self.flake {
                Some(f) => Some(f@),
                None => None,
            },
            switch: self.switch,
            dry_activate: self.dry_activate,
            no_link: self.no_link,
            ssh: match self.ssh {
                Some(s) => Some(s@),
                None => None,
            },
            install_host: match self.install_host {
                Some(h) => Some(h@),
                None => None,
            },
        }
    }
}

/// No flags set.
pub open spec fn sys_build_default() -> SystemBuildModel {
    SystemBuildModel {
        flake: None,
        switch: false,
        dry_activate: false,
        no_link: false,
        ssh: None,
        install_host: None,
    }
}

/// What parsing the remaining arguments onto the accumulated flags
/// yields: each switch flag sets its field, each valued flag takes the
/// following argument, anything else fails.
pub open spec fn sys_parse(args: Seq<Seq<char>>, acc: SystemBuildModel) -> Option<SystemBuildModel>
    decreases args.len(),
{
    if args.len() == 0 {
        Some(acc)
    } else if args.first() == "--switch"@ {
        sys_parse(args.drop_first(), SystemBuildModel { switch: true, ..acc })
    } else if args.first() == "--dry-activate"@ {
        sys_parse(args.drop_first(), SystemBuildModel { dry_activate: true, ..acc })
    } else if args.first() == "--no-link"@ {
        sys_parse(args.drop_first(), SystemBuildModel { no_link: true, ..acc })
    } else if args.first() == "--flake"@ {
        if args.len() >= 2 {
            sys_parse(args.drop_first().drop_first(), SystemBuildModel { flake: Some(args[1]), ..acc })
        } else {
            None
        }
    } else if args.first() == "--ssh"@ {
        if args.len() >= 2 {
            sys_parse(args.drop_first().drop_first(), SystemBuildModel { ssh: Some(args[1]), ..acc })
        } else {
            None
        }
    } else if args.first() == "--install-host"@ {
        if args.len() >= 2 {
            sys_parse(
                args.drop_first().drop_first(),
                SystemBuildModel { install_host: Some(args[1]), ..acc },
            )
        } else {
            None
        }
    } else {
        None
    }
}

impl SystemBuildArgs {
    /// Parses the build flags from an argument list whose first element
    /// is the program name.  An unknown flag, or a valued flag without
    /// its value, is refused.
    pub fn parse_from(args: Vec<String>) -> (r: Result<SystemBuildArgs, Error>)
        ensures
            ({
                let tail = if args.deep_view().len() == 0 {
                    args.deep_view()
                } else {
                    args.deep_view().drop_first()
                };
                match sys_parse(tail, sys_build_default()) {
                    Some(m) => r is Ok && r->Ok_0@ == m,
                    None => r == Err::<SystemBuildArgs, Error>(Error::InvalidArguments),
                }
            }),
    {
        let ghost all = args.deep_view();
        let ghost tail = if all.len() == 0 {
            all
        } else {
            all.drop_first()
        };
        let mut acc = SystemBuildArgs {
            flake: None,
            switch: false,
            dry_activate: false,
            no_link: false,
            ssh: None,
            install_host: None,
        };
        proof {
            assert(acc@ == sys_build_default());
            if all.len() == 0 {
                assert(all.subrange(0, all.len() as int) =~= tail);
            } else {
                assert(all.subrange(1, all.len() as int) =~= tail);
            }
        }
        let n = args.len();
        let mut i: usize = if n == 0 {
            0
        } else {
            1
        };
        while i < n
            invariant
            i <= n,
            n == all.len(),
            all == args.deep_view(),
            tail == if all.len() == 0 {
                all
            } else {
                all.drop_first()
            },
            sys_parse(tail, sys_build_default()) == sys_parse(
                all.subrange(i as int, all.len() as int),
                acc@,
            ),
            decreases n - i,
        {
            let ghost rest = all.subrange(i as int, all.len() as int);
            proof {
                assert(rest.len() > 0);
                assert(rest.first() == all[i as int]);
                assert(rest.drop_first() =~= all.subrange(i + 1, all.len() as int));
                if rest.len() >= 2 {
                    assert(rest[1] == all[i + 1]);
                    assert(rest.drop_first().drop_first() =~= all.subrange(
                        i + 2,
                        all.len() as int,
                    ));
                }
            }
            let a = &args[i];
            if str_eq(a.as_str(), "--switch") {
                acc.switch = true;
                i = i + 1;
            } else if str_eq(a.as_str(), "--dry-activate") {
                acc.dry_activate = true;
                i = i + 1;
            } else if str_eq(a.as_str(), "--no-link") {
                acc.no_link = true;
                i = i + 1;
            } else if str_eq(a.as_str(), "--flake") {
                if i + 1 >= n {
                    return Err(Error::InvalidArguments);
                }
                acc.flake = Some(args[i + 1].clone());
                i = i + 2;
            } else if str_eq(a.as_str(), "--ssh") {
                if i + 1 >= n {
                    return Err(Error::InvalidArguments);
                }
                acc.ssh = Some(args[i + 1].clone());
                i = i + 2;
            } else if str_eq(a.as_str(), "--install-host") {
                if i + 1 >= n {
                    return Err(Error::InvalidArguments);
                }
                acc.install_host = Some(args[i + 1].clone());
                i = i + 2;
            } else {
                return Err(Error::InvalidArguments);
            }
        }
        proof {
            assert(all.subrange(n as int, all.len() as int) =~= Seq::<Seq<char>>::empty());
        }
        Ok(acc)
    }
}

/// The flags of a machine-level rollback.
#[derive(Debug)]
pub struct SystemRollbackArgs {
    pub generation: Option<String>,
    pub ssh: Option<String>,
    pub install_host: Option<String>,
}

/// Relies on `which::which`: looks a program up on the search path.  The
/// result depends on what is installed, so nothing is promised of it;
/// `None` when the program is absent or its path is not valid text.
#[verifier::external_body]
fn which_program(name: &str) -> (r: Option<String>) {
    which::which(name).ok().and_then(|p| p.into_os_string().into_string().ok())
}

/// The machine-level configuration manager's command lines.
#[derive(Debug)]
pub struct SystemManager;

impl SystemManager {
    /// The build command over a located manager binary: the build
    /// subcommand with exactly the flags the arguments ask for, run on
    /// the install host when one is named (a further remote-shell layer
    /// for `ssh` is the driver's).
    pub fn build_command(bin: String, args: &SystemBuildArgs) -> (r: Command)
        ensures
            r.command@ == bin@,
            r.args.deep_view() == seq!["build"@] + (match args.flake {
                Some(f) => seq!["--flake"@, f@],
                None => Seq::<Seq<char>>::empty(),
            }) + (if args.switch {
                seq!["--switch"@]
            } else {
                Seq::<Seq<char>>::empty()
            }) + (if args.dry_activate {
                seq!["--dry-activate"@]
            } else {
                Seq::<Seq<char>>::empty()
            }) + (if args.no_link {
                seq!["--no-link"@]
            } else {
                Seq::<Seq<char>>::empty()
            }),
            r.ssh == args.install_host,
            r.elevate == false,
            r.dry == false,
    {
        let mut c = Command::new(bin.as_str()).arg("build");
        match &args.flake {
            Some(f) => {
                c = c.arg("--flake").arg(f.as_str());
            },
            None => {
            },
        }
        if args.switch {
            c = c.arg("--switch");
        }
        if args.dry_activate {
            c = c.arg("--dry-activate");
        }
        if args.no_link {
            c = c.arg("--no-link");
        }
        let c = c.ssh(clone_opt_s(&args.install_host));
        proof {
            assert(c.args.deep_view() =~= seq!["build"@] + (match args.flake {
                Some(f) => seq!["--flake"@, f@],
                None => Seq::<Seq<char>>::empty(),
            }) + (if args.switch {
                seq!["--switch"@]
            } else {
                Seq::<Seq<char>>::empty()
            }) + (if args.dry_activate {
                seq!["--dry-activate"@]
            } else {
                Seq::<Seq<char>>::empty()
            }) + (if args.no_link {
                seq!["--no-link"@]
            } else {
                Seq::<Seq<char>>::empty()
            }));
        }
        c
    }

    /// Builds a machine-level configuration: refused away from Linux;
    /// fails when the manager binary is not on the search path; the
    /// command's shape is [`Self::build_command`]'s over whatever path
    /// the lookup returned.
    pub fn build(args: &SystemBuildArgs, on_macos: bool) -> (r: Result<Command, Error>)
        ensures
            on_macos ==> r == Err::<Command, Error>(Error::LinuxOnly),
            r is Err ==> r == Err::<Command, Error>(Error::LinuxOnly) || r == Err::<
                Command,
                Error,
            >(Error::SystemManagerNotFound),
            r is Ok ==> {
                &&& r->Ok_0.args.deep_view() == seq!["build"@] + (match args.flake {
                    Some(f) => seq!["--flake"@, f@],
                    None => Seq::<Seq<char>>::empty(),
                }) + (if args.switch {
                    seq!["--switch"@]
                } else {
                    Seq::<Seq<char>>::empty()
                }) + (if args.dry_activate {
                    seq!["--dry-activate"@]
                } else {
                    Seq::<Seq<char>>::empty()
                }) + (if args.no_link {
                    seq!["--no-link"@]
                } else {
                    Seq::<Seq<char>>::empty()
                })
                &&& r->Ok_0.ssh == args.install_host
                &&& r->Ok_0.elevate == false
            },
    {
        if on_macos {
            return Err(Error::LinuxOnly);
        }
        match which_program("system-manager") {
            None => Err(Error::SystemManagerNotFound),
            Some(bin) => Ok(Self::build_command(bin, args)),
        }
    }

    /// Lists the manager's generations: refused away from Linux; fails
    /// when the manager binary is not on the search path.
    pub fn list_generations(ssh: Option<String>, on_macos: bool) -> (r: Result<Command, Error>)
        ensures
            on_macos ==> r == Err::<Command, Error>(Error::LinuxOnly),
            r is Err ==> r == Err::<Command, Error>(Error::LinuxOnly) || r == Err::<
                Command,
                Error,
            >(Error::SystemManagerNotFound),
            r is Ok ==> {
                &&& r->Ok_0.args.deep_view() == seq!["list-generations"@]
                &&& r->Ok_0.ssh == ssh
                &&& r->Ok_0.elevate == false
            },
    {
        if on_macos {
            return Err(Error::LinuxOnly);
        }
        match which_program("system-manager") {
            None => Err(Error::SystemManagerNotFound),
            Some(bin) => {
                let c = Command::new(bin.as_str()).arg("list-generations").ssh(ssh);
                proof {
                    assert(c.args.deep_view() =~= seq!["list-generations"@]);
                }
                Ok(c)
            },
        }
    }

    /// Rolls the manager back one generation (or to a named one):
    /// refused away from Linux; fails when the manager binary is not on
    /// the search path.
    pub fn rollback(args: &SystemRollbackArgs, on_macos: bool) -> (r: Result<Command, Error>)
        ensures
            on_macos ==> r == Err::<Command, Error>(Error::LinuxOnly),
            r is Err ==> r == Err::<Command, Error>(Error::LinuxOnly) || r == Err::<
                Command,
                Error,
            >(Error::SystemManagerNotFound),
            r is Ok ==> {
                &&& r->Ok_0.args.deep_view() == seq!["rollback"@] + (match args.generation {
                    Some(g) => seq![g@],
                    None => Seq::<Seq<char>>::empty(),
                })
                &&& r->Ok_0.ssh == args.install_host
                &&& r->Ok_0.elevate == false
            },
    {
        if on_macos {
            return Err(Error::LinuxOnly);
        }
        match which_program("system-manager") {
            None => Err(Error::SystemManagerNotFound),
            Some(bin) => {
                let mut c = Command::new(bin.as_str()).arg("rollback");
                match &args.generation {
                    Some(g) => {
                        c = c.arg(g.as_str());
                    },
                    None => {
                    },
                }
                let c = c.ssh(clone_opt_s(&args.install_host));
                proof {
                    assert(c.args.deep_view() =~= seq!["rollback"@] + (match args.generation {
                        Some(g) => seq![g@],
                        None => Seq::<Seq<char>>::empty(),
                    }));
                }
                Ok(c)
            },
        }
    }
}

/// Copies an optional string with its exact content.
fn clone_opt_s(o: &Option<String>) -> (r: Option<String>)
    ensures
        r == *o,
{
    match o {
        Some(s) => Some(s.clone()),
        None => None,
    }
}

} // verus!
