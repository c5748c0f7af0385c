use union_policy_parser::error::{joined, PolicyError};

#[test]
fn messages() {
    let cases = vec![
        (PolicyError::ParseError("p".to_string()), "Failed to parse A2ML file: p"),
        (PolicyError::ValidationError("v".to_string()), "Validation failed: v"),
        (PolicyError::MissingClause("m".to_string()), "Missing required clause: m"),
        (
            PolicyError::InvalidClauseValue {
                clause: "c".to_string(),
                expected: "e".to_string(),
                actual: "a".to_string(),
            },
            "Invalid clause value for 'c': expected e, got a",
        ),
        (PolicyError::SchemaError("s".to_string()), "Schema error: s"),
        (PolicyError::FileNotFound("/tmp/x.a2ml".to_string()), "File not found: /tmp/x.a2ml"),
        (PolicyError::IoError("denied".to_string()), "IO error: denied"),
        (PolicyError::JsonError("j".to_string()), "JSON error: j"),
        (PolicyError::TemplateError("t".to_string()), "Template error: t"),
        (PolicyError::UnknownUnion("u".to_string()), "Unknown union: u"),
    ];
    for (error, text) in cases {
        assert_eq!(error.message(), text);
    }
}

#[test]
fn joining() {
    assert_eq!(joined("ab", "cd"), "abcd");
    assert_eq!(joined("", ""), "");
    assert_eq!(joined("\u{e9}", "\u{1f600}"), "\u{e9}\u{1f600}");
}
