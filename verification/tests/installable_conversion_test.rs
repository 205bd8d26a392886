use nh::installable::{join_attribute, parse_attribute, Installable};

fn strings(parts: &[&str]) -> Vec<String> {
    parts.iter().map(|s| s.to_string()).collect()
}

/// Test that Installable::Flake properly converts to arguments
#[test]
fn prop_installable_flake_to_args() {
    for (reference, attribute) in [
        ("github:user/repo", vec![]),
        ("path:/etc/nixos", vec!["a"]),
        ("flake", vec!["x1", "y2", "z3"]),
    ] {
        let flake = Installable::Flake {
            reference: reference.to_string(),
            attribute: strings(&attribute),
        };
        let args = flake.to_args();

        // Exactly one argument comes out.
        assert_eq!(args.len(), 1);

        if attribute.is_empty() {
            // An empty attribute still appends a trailing separator.
            assert_eq!(&args[0], &format!("{}#", reference));
        } else {
            let parts: Vec<&str> = args[0].splitn(2, '#').collect();
            assert_eq!(parts.len(), 2);
            assert_eq!(parts[0], reference);
            let joined_attr = join_attribute(&strings(&attribute));
            assert_eq!(parts[1], &joined_attr);
        }
    }
}

/// Test that Installable::File properly converts to arguments
#[test]
fn prop_installable_file_to_args() {
    for (path, attribute) in [
        ("/etc/nixos/default.nix", vec![]),
        ("./flake.nix", vec!["with.dots", "plain"]),
        ("cfg.nix", vec!["one"]),
    ] {
        let file = Installable::File {
            path: path.to_string(),
            attribute: strings(&attribute),
        };
        let args = file.to_args();

        assert!(
            args.len() >= 2,
            "File installable should have at least --file and path arguments"
        );
        assert_eq!(&args[0], "--file");
        assert_eq!(&args[1], path);

        if !attribute.is_empty() {
            assert_eq!(args.len(), 3);
            assert_eq!(&args[2], &join_attribute(&strings(&attribute)));
        } else {
            assert_eq!(args.len(), 2);
        }
    }
}

/// Property test for Installable::Expression conversion to args
#[test]
fn prop_installable_expression_to_args() {
    for (expr, attribute) in [
        ("{ x = 1; }", vec![]),
        ("import ./default.nix", vec!["pkg"]),
        ("self: self", vec!["a", "b"]),
    ] {
        let expression = Installable::Expression {
            expression: expr.to_string(),
            attribute: strings(&attribute),
        };
        let args = expression.to_args();

        assert!(
            args.len() >= 2,
            "Expression installable should have at least --expr and the expression arguments"
        );
        assert_eq!(&args[0], "--expr");
        assert_eq!(&args[1], expr);

        if !attribute.is_empty() {
            assert_eq!(args.len(), 3);
            assert_eq!(&args[2], &join_attribute(&strings(&attribute)));
        } else {
            assert_eq!(args.len(), 2);
        }
    }
}

/// Property test for Installable::Store conversion to args
#[test]
fn prop_installable_store_to_args() {
    for store_path in [
        "/nix/store/abcdefghijklmnopqrstuvwxyz012345-system",
        "/nix/store/x",
    ] {
        let store = Installable::Store {
            path: store_path.to_string(),
        };
        let args = store.to_args();
        assert_eq!(args.len(), 1, "Store installable should have exactly one argument");
        assert_eq!(&args[0], store_path);
    }
}

/// join_attribute followed by parse_attribute maintains the original values.
#[test]
fn prop_join_parse_attribute_roundtrip() {
    for attributes in [
        vec!["a"],
        vec!["one", "two"],
        vec!["x1", "Y_2", "z3", "w"],
    ] {
        let attribute_strings: Vec<String> = strings(&attributes);
        let joined = join_attribute(&attribute_strings);
        let parsed = parse_attribute(&joined);
        assert_eq!(attribute_strings.len(), parsed.len());
        for (orig, parsed_one) in attribute_strings.iter().zip(parsed.iter()) {
            assert_eq!(orig, parsed_one);
        }
    }
}

/// join_attribute wraps segments holding dots in quotes, and they still
/// round-trip.
#[test]
fn prop_join_attribute_with_dots() {
    for (components, dotted_component) in [
        (vec!["head"], "tail.with"),
        (vec!["a", "b"], "x.y"),
    ] {
        let mut attribute_strings: Vec<String> = strings(&components);
        attribute_strings.push(dotted_component.to_string());

        let joined = join_attribute(&attribute_strings);

        // The component with dots is quoted.
        assert!(joined.contains(&format!("\"{}\"", dotted_component)));

        let parsed = parse_attribute(&joined);
        assert_eq!(attribute_strings.len(), parsed.len());
        for (orig, parsed_one) in attribute_strings.iter().zip(parsed.iter()) {
            assert_eq!(orig, parsed_one);
        }
    }
}

/// The single flake argument of the builder wire contract, exactly.
#[test]
fn test_flake_args_exact() {
    let bare = Installable::Flake {
        reference: "r".to_string(),
        attribute: vec![],
    };
    assert_eq!(bare.to_args(), vec!["r#".to_string()]);

    let two = Installable::Flake {
        reference: "r".to_string(),
        attribute: strings(&["a", "b"]),
    };
    assert_eq!(two.to_args(), vec!["r#a.b".to_string()]);
}

/// A store path renders as exactly one argument.
#[test]
fn test_store_args_exact() {
    let store = Installable::Store {
        path: "/nix/store/x".to_string(),
    };
    assert_eq!(store.to_args(), vec!["/nix/store/x".to_string()]);
}

/// A system pointer renders as exactly one argument.
#[test]
fn test_system_args_exact() {
    let system = Installable::System {
        path: "/run/current-system".to_string(),
    };
    assert_eq!(system.to_args(), vec!["/run/current-system".to_string()]);
}

/// The round-trip holds only for well-formed segments: a dotless segment
/// with whitespace at its ends is trimmed by the parser, and a single
/// empty segment renders as the empty string, which parses as the empty
/// path.
#[test]
fn test_roundtrip_edge_exclusions() {
    let padded = vec![" a".to_string()];
    assert_eq!(parse_attribute(&join_attribute(&padded)), vec!["a".to_string()]);

    let single_empty = vec![String::new()];
    assert_eq!(join_attribute(&single_empty), "");
    assert!(parse_attribute(&join_attribute(&single_empty)).is_empty());
}
