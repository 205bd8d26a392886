//! Preflight checks against the external builder: its version, its
//! enabled experimental features, and the override variables that supply
//! a default configuration reference.

use vstd::prelude::*;

use crate::error::Error;
use crate::util::missing_names;

verus! {

/// The major, minor and patch numbers semver's parser reads from a
/// version text, when the text parses; the result depends on the text
/// alone.
pub uninterp spec fn semver_triple(s: Seq<char>) -> Option<(u64, u64, u64)>;

/// Relies on `semver::Version::parse`: the parsed version's major, minor
/// and patch numbers; `None` when the text is not a semantic version.
#[verifier::external_body]
fn parse_version_triple(text: &str) -> (r: Option<(u64, u64, u64)>)
    ensures
        r == semver_triple(text@),
{
    match semver::Version::parse(text) {
        Ok(v) => Some((v.major, v.minor, v.patch)),
        Err(_) => None,
    }
}

/// Version precedence on major/minor/patch triples.
pub open spec fn triple_lt(a: (u64, u64, u64), b: (u64, u64, u64)) -> bool {
    a.0 < b.0 || (a.0 == b.0 && (a.1 < b.1 || (a.1 == b.1 && a.2 < b.2)))
}

/// The minimum supported builder version: the Lix fork and standard Nix
/// follow different release lines.
pub open spec fn min_version_of(is_lix: bool) -> (u64, u64, u64) {
    if is_lix {
        (2u64, 91u64, 1u64)
    } else {
        (2u64, 24u64, 14u64)
    }
}

/// Verifies that the installed builder is recent enough.  With the
/// checks switched off nothing is verified; an unparsable version is an
/// error of its own; a version older than the minimum for the detected
/// flavour is refused, carrying the version text.
pub fn check_nix_version(version: &str, is_lix: bool, skip_checks: bool) -> (r: Result<(), Error>)
    ensures
        skip_checks ==> r == Ok::<(), Error>(()),
        !skip_checks ==> match semver_triple(version@) {
            None => r == Err::<(), Error>(Error::VersionUnparsable),
            Some(t) => if triple_lt(t, min_version_of(is_lix)) {
                r matches Err(Error::VersionTooOld { is_lix: l, current }) && l == is_lix
                    && current@ == version@
            } else {
                r == Ok::<(), Error>(())
            },
        },
{
    if skip_checks {
        return Ok(());
    }
    match parse_version_triple(version) {
        None => Err(Error::VersionUnparsable),
        Some((major, minor, patch)) => {
            let (mj, mn, pt) = if is_lix {
                (2u64, 91u64, 1u64)
            } else {
                (2u64, 24u64, 14u64)
            };
            let too_old = major < mj || (major == mj && (minor < mn || (minor == mn && patch
                < pt)));
            if too_old {
                Err(Error::VersionTooOld { is_lix, current: String::from_str(version) })
            } else {
                Ok(())
            }
        },
    }
}

/// The features the builder must have enabled: the command and flake
/// features, and for the Lix fork also its interactive-evaluation flake
/// feature.
pub open spec fn required_features_of(is_lix: bool) -> Seq<Seq<char>> {
    if is_lix {
        seq!["nix-command"@, "flakes"@, "repl-flake"@]
    } else {
        seq!["nix-command"@, "flakes"@]
    }
}

/// Verifies that every required experimental feature is enabled.  With
/// the checks switched off nothing is verified; otherwise the error
/// lists exactly the missing features, in order.
pub fn check_nix_features(enabled: &Vec<String>, is_lix: bool, skip_checks: bool) -> (r: Result<
    (),
    Error,
>)
    ensures
        skip_checks ==> r == Ok::<(), Error>(()),
        !skip_checks ==> {
            let miss = missing_names(required_features_of(is_lix), enabled.deep_view());
            if miss.len() == 0 {
                r == Ok::<(), Error>(())
            } else {
                r matches Err(Error::MissingFeatures { missing }) && missing.deep_view() == miss
            }
        },
{
    if skip_checks {
        return Ok(());
    }
    let mut required: Vec<String> = Vec::new();
    required.push(String::from_str("nix-command"));
    required.push(String::from_str("flakes"));
    if is_lix {
        required.push(String::from_str("repl-flake"));
    }
    proof {
        assert(required.deep_view() =~= required_features_of(is_lix));
    }
    let missing = crate::util::get_missing_experimental_features(&required, enabled);
    if missing.len() == 0 {
        proof {
            assert(missing.deep_view() =~= Seq::<Seq<char>>::empty());
        }
        Ok(())
    } else {
        Err(Error::MissingFeatures { missing })
    }
}

/// Settles the override variables: when the legacy override is set and
/// the tool's own is not, the tool's own takes the legacy value; the
/// user is warned about the legacy name only when no platform-specific
/// override would take precedence anyway.  Returns whether to warn and
/// the value to store, if any.
pub fn setup_environment(
    flake: Option<String>,
    nh_flake: Option<String>,
    nh_os_flake: Option<String>,
    nh_home_flake: Option<String>,
    nh_darwin_flake: Option<String>,
) -> (r: (bool, Option<String>))
    ensures
        r.1 is Some <==> (flake is Some && nh_flake is None),
        r.1 is Some ==> r.1 == flake,
        r.0 == (flake is Some && nh_flake is None && nh_os_flake is None && nh_home_flake is None
            && nh_darwin_flake is None),
{
    match flake {
        Some(f) => {
            match nh_flake {
                Some(_) => (false, None),
                None => {
                    let warn = match (nh_os_flake, nh_home_flake, nh_darwin_flake) {
                        (None, None, None) => true,
                        _ => false,
                    };
                    (warn, Some(f))
                },
            }
        },
        None => (false, None),
    }
}

/// Runs every preflight check at once: the version, then the features.
/// With the checks switched off nothing is verified.
pub fn verify_nix_environment(
    version: &str,
    is_lix: bool,
    enabled: &Vec<String>,
    skip_checks: bool,
) -> (r: Result<(), Error>)
    ensures
        skip_checks ==> r == Ok::<(), Error>(()),
        !skip_checks ==> match semver_triple(version@) {
            None => r == Err::<(), Error>(Error::VersionUnparsable),
            Some(t) => if triple_lt(t, min_version_of(is_lix)) {
                r matches Err(Error::VersionTooOld { is_lix: l, current }) && l == is_lix
                    && current@ == version@
            } else {
                {
                    let miss = missing_names(required_features_of(is_lix), enabled.deep_view());
                    if miss.len() == 0 {
                        r == Ok::<(), Error>(())
                    } else {
                        r matches Err(Error::MissingFeatures { missing }) && missing.deep_view()
                            == miss
                    }
                }
            },
        },
{
    if skip_checks {
        return Ok(());
    }
    match check_nix_version(version, is_lix, false) {
        Err(e) => Err(e),
        Ok(()) => check_nix_features(enabled, is_lix, false),
    }
}

} // verus!
