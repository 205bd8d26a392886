use nh::error::Error;
use nh::generations::{
    find_generation_by_number, find_previous_generation, get_current_generation_number,
    parse_generation_number, GenerationInfo,
};

fn gen(number: u64, current: bool) -> GenerationInfo {
    GenerationInfo {
        number,
        path: format!("/nix/var/nix/profiles/system-{}-link", number),
        current,
    }
}

/// With generations numbered 1..5 and generation 3 flagged current, the
/// previous generation is generation 2.
#[test]
fn test_find_previous_generation() {
    let generations = vec![
        gen(1, false),
        gen(2, false),
        gen(3, true),
        gen(4, false),
        gen(5, false),
    ];
    let previous = find_previous_generation(&generations).unwrap();
    assert_eq!(previous.number, 2);
    assert_eq!(previous.path, "/nix/var/nix/profiles/system-2-link");
}

/// With only generation 1 present and flagged current there is nothing
/// older to return.
#[test]
fn test_find_previous_generation_oldest() {
    let generations = vec![gen(1, true)];
    assert_eq!(
        find_previous_generation(&generations),
        Err(Error::NoOlderGeneration)
    );
}

/// Discovery order does not matter: the predecessor is found by number.
#[test]
fn test_find_previous_generation_unsorted() {
    let generations = vec![gen(5, false), gen(2, false), gen(3, true), gen(1, false)];
    let previous = find_previous_generation(&generations).unwrap();
    assert_eq!(previous.number, 2);
}

/// An empty listing and a listing without a current generation each fail
/// with their own error.
#[test]
fn test_find_previous_generation_errors() {
    assert_eq!(find_previous_generation(&vec![]), Err(Error::NoGenerations));
    let no_current = vec![gen(1, false), gen(2, false)];
    assert_eq!(
        find_previous_generation(&no_current),
        Err(Error::NoCurrentGeneration)
    );
}

#[test]
fn test_find_generation_by_number() {
    let generations = vec![gen(1, false), gen(2, true), gen(7, false)];
    let found = find_generation_by_number(&generations, 7).unwrap();
    assert_eq!(found.number, 7);
    assert_eq!(found.path, "/nix/var/nix/profiles/system-7-link");
    assert_eq!(
        find_generation_by_number(&generations, 4),
        Err(Error::GenerationNotFound(4))
    );
}

#[test]
fn test_get_current_generation_number() {
    let generations = vec![gen(1, false), gen(2, false), gen(3, true)];
    assert_eq!(get_current_generation_number(&generations), Ok(3));
    let none = vec![gen(1, false)];
    assert_eq!(
        get_current_generation_number(&none),
        Err(Error::NoCurrentGeneration)
    );
}

/// The link-name convention `{prefix}{number}{suffix}` is parsed exactly.
#[test]
fn test_parse_generation_number() {
    assert_eq!(
        parse_generation_number("system-42-link", "system-", "-link"),
        Some(42)
    );
    assert_eq!(
        parse_generation_number("system-0-link", "system-", "-link"),
        Some(0)
    );
    // Not the convention: wrong prefix, wrong suffix, empty or broken digits.
    assert_eq!(parse_generation_number("user-42-link", "system-", "-link"), None);
    assert_eq!(parse_generation_number("system-42-x", "system-", "-link"), None);
    assert_eq!(parse_generation_number("system--link", "system-", "-link"), None);
    assert_eq!(parse_generation_number("system-4a2-link", "system-", "-link"), None);
    assert_eq!(parse_generation_number("system-link", "system-", "-link"), None);
    // The largest value that fits, and the first that does not.
    assert_eq!(
        parse_generation_number("system-18446744073709551615-link", "system-", "-link"),
        Some(u64::MAX)
    );
    assert_eq!(
        parse_generation_number("system-18446744073709551616-link", "system-", "-link"),
        None
    );
}
