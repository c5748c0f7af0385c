use union_policy_parser::validator::{ErrorKind, ValidationReport};

#[test]
fn test_validation_report() {
    let mut report = ValidationReport::new(
        "test-contract.a2ml".to_string(),
        "nuj-ethics.a2ml".to_string(),
    );

    assert!(report.valid);

    report.add_error(
        ErrorKind::MissingClause,
        "Missing source-protection".to_string(),
        Some("Section 6".to_string()),
    );

    assert!(!report.valid);
    assert_eq!(report.errors.len(), 1);
}
