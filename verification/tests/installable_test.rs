use nh::installable::parse_attribute;

/// Test that parse_attribute correctly handles various inputs
#[test]
fn test_parse_attribute_examples() {
    assert_eq!(parse_attribute("").len(), 0);
    assert_eq!(parse_attribute("foo"), vec!["foo".to_string()]);
    assert_eq!(parse_attribute("foo.bar"), vec![
        "foo".to_string(),
        "bar".to_string()
    ]);
    assert_eq!(parse_attribute(r#"foo."bar.baz""#), vec![
        "foo".to_string(),
        "bar.baz".to_string()
    ]);
    assert_eq!(parse_attribute(r#"nixosConfigurations.myhost"#), vec![
        "nixosConfigurations".to_string(),
        "myhost".to_string()
    ]);
}

/// Concrete cases of the parser's behaviour on empty input, single
/// identifiers, dot notation, quoting and whitespace.
#[test]
fn prop_parse_attribute_properties() {
    // Empty string results in an empty path.
    assert!(parse_attribute("").is_empty());

    // A single identifier without dots is returned as one element.
    for single_ident in ["a", "Zz9", "_under", "xQ3_"] {
        let result = parse_attribute(single_ident);
        assert_eq!(result.len(), 1);
        assert_eq!(&result[0], single_ident);
    }

    // Simple dot notation splits into components.
    for (ident1, ident2) in [("foo", "bar"), ("_a", "B2"), ("x", "y")] {
        let input = format!("{}.{}", ident1, ident2);
        let result = parse_attribute(&input);
        assert_eq!(result.len(), 2);
        assert_eq!(&result[0], ident1);
        assert_eq!(&result[1], ident2);
    }

    // Quoted segments in dot notation keep their interior dots.
    for (ident1, inner_text) in [("foo", "bar.baz"), ("a", "x.y.z"), ("q", "plain")] {
        let input = format!("{}.\"{}\"", ident1, inner_text);
        let result = parse_attribute(&input);
        assert_eq!(result.len(), 2);
        assert_eq!(&result[0], ident1);
        assert_eq!(&result[1], inner_text);
    }

    // Multiple dots give multiple elements.
    for components in [vec!["a"], vec!["a", "b", "c"], vec!["one", "two", "three", "four"]] {
        let input = components.join(".");
        let result = parse_attribute(&input);
        assert_eq!(result.len(), components.len());
        for (i, component) in components.iter().enumerate() {
            assert_eq!(&result[i], component);
        }
    }

    // Mixed quoted and unquoted segments with whitespace around them.
    for (ident1, quoted, ident3) in [("foo", "bar.baz", "tail"), ("a", "m_0.n", "z")] {
        let input = format!("{}  . \"{}\" .  {}", ident1, quoted, ident3);
        let result = parse_attribute(&input);
        assert_eq!(
            result.len(),
            3,
            "Expected 3 components from '{}', got {}: {:?}",
            input,
            result.len(),
            result
        );
        assert_eq!(&result[0], ident1);
        assert_eq!(&result[1], quoted);
        assert_eq!(&result[2], ident3);
    }

    // Whitespace at the beginning and end is stripped.
    for (ident1, ident2) in [("foo", "bar"), ("A1", "b_2")] {
        let input = format!("  {}  .  {}  ", ident1, ident2);
        let result = parse_attribute(&input);
        assert_eq!(result.len(), 2);
        assert_eq!(&result[0], ident1);
        assert_eq!(&result[1], ident2);
    }
}

/// An unterminated quote never fails: the rest of the input is literal
/// text for that segment.
#[test]
fn test_parse_attribute_unterminated_quote() {
    assert_eq!(parse_attribute(r#"foo."bar.baz"#), vec![
        "foo".to_string(),
        "bar.baz".to_string()
    ]);
}
