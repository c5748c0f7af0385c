use union_policy_parser::parser::parse_a2ml_string;
use union_policy_parser::text::holds_text;
use union_policy_parser::validator::{
    ClauseCheck, ErrorKind, ValidationMode, ValidationReport, Validator,
};

fn contract() -> &'static str {
    "@abstract: Terms of work. @end\n# Source Protection\n\nGuaranteed.\n\n## Payment TERMS\n\n- 30 days\n\n@refs:\n[1] Act\n@end\n"
}

#[test]
fn report_collects_in_order() {
    let mut report = ValidationReport::new("c".to_string(), "s".to_string());
    assert_eq!((report.contract_path.as_str(), report.schema_path.as_str()), ("c", "s"));
    assert!(report.valid && report.errors.is_empty() && report.warnings.is_empty());
    assert!(report.required_clauses.is_empty());
    report.add_warning("first".to_string(), None);
    report.add_warning("second".to_string(), Some("here".to_string()));
    assert!(report.valid);
    assert_eq!(report.warnings[0].message, "first");
    assert_eq!(report.warnings[1].location.as_deref(), Some("here"));
    let present = ClauseCheck { clause: "a".to_string(), present: true, value: None, expected: None };
    report.add_clause_check(present);
    assert!(report.valid);
    let missing = ClauseCheck {
        clause: "b".to_string(),
        present: false,
        value: Some("v".to_string()),
        expected: Some("e".to_string()),
    };
    report.add_clause_check(missing);
    assert!(!report.valid);
    let again = ClauseCheck { clause: "c".to_string(), present: true, value: None, expected: None };
    report.add_clause_check(again);
    assert!(!report.valid);
    let names: Vec<&str> = report.required_clauses.iter().map(|c| c.clause.as_str()).collect();
    assert_eq!(names, vec!["a", "b", "c"]);
    assert_eq!(report.required_clauses[1].value.as_deref(), Some("v"));
    report.add_error(ErrorKind::InvalidValue, "bad".to_string(), None);
    assert_eq!(report.errors[0].kind, ErrorKind::InvalidValue);
    assert_eq!(report.errors[0].message, "bad");
    assert_eq!(report.errors[0].location, None);
    assert_eq!(report.warnings.len(), 2);
}

#[test]
fn error_kind_names() {
    assert_eq!(ErrorKind::MissingClause.name(), "MissingClause");
    assert_eq!(ErrorKind::InvalidValue.name(), "InvalidValue");
    assert_eq!(ErrorKind::UnresolvedReference.name(), "UnresolvedReference");
    assert_eq!(ErrorKind::StructureError.name(), "StructureError");
    assert_eq!(ErrorKind::AttestationFailure.name(), "AttestationFailure");
    for k in [ErrorKind::MissingClause, ErrorKind::StructureError] {
        assert_eq!(k.name(), format!("{:?}", k));
    }
}

#[test]
fn clauses_are_found_in_headings_whatever_the_case() {
    let doc = parse_a2ml_string(contract()).unwrap();
    let schema = parse_a2ml_string("").unwrap();
    let v = Validator::new(schema, ValidationMode::Lax);
    let clauses = vec![
        "source protection".to_string(),
        "PAYMENT".to_string(),
        "kill-fee".to_string(),
        "".to_string(),
    ];
    let report = v.validate(&doc, &clauses);
    assert_eq!((report.contract_path.as_str(), report.schema_path.as_str()), ("contract", "schema"));
    let seen: Vec<(&str, bool)> =
        report.required_clauses.iter().map(|c| (c.clause.as_str(), c.present)).collect();
    assert_eq!(
        seen,
        vec![("source protection", true), ("PAYMENT", true), ("kill-fee", false), ("", true)]
    );
    assert!(report.required_clauses.iter().all(|c| c.value.is_none() && c.expected.is_none()));
    assert!(!report.valid);
    assert!(report.errors.is_empty() && report.warnings.is_empty());
}

#[test]
fn lax_mode_checks_clauses_only() {
    let bare = parse_a2ml_string("# Only a heading\n").unwrap();
    let v = Validator::new(parse_a2ml_string("").unwrap(), ValidationMode::Lax);
    let report = v.validate(&bare, &[]);
    assert!(report.valid);
    assert!(report.errors.is_empty() && report.warnings.is_empty());
    assert!(report.required_clauses.is_empty());
}

#[test]
fn checked_mode_asks_for_abstract_and_references() {
    let bare = parse_a2ml_string("# Only a heading\n").unwrap();
    for mode in [ValidationMode::Checked, ValidationMode::Attested] {
        let v = Validator::new(parse_a2ml_string("").unwrap(), mode);
        let report = v.validate(&bare, &["heading".to_string()]);
        assert!(!report.valid);
        assert_eq!(report.errors.len(), 1);
        assert_eq!(report.errors[0].kind, ErrorKind::MissingClause);
        assert_eq!(report.errors[0].message, "Contract missing @abstract section");
        assert_eq!(report.errors[0].location, None);
        assert_eq!(report.warnings.len(), 1);
        assert_eq!(report.warnings[0].message, "Contract has no @refs section");
        assert_eq!(report.warnings[0].location, None);
        assert!(report.required_clauses[0].present);
        let full = parse_a2ml_string(contract()).unwrap();
        let report = v.validate(&full, &["payment".to_string()]);
        assert!(report.valid);
        assert!(report.errors.is_empty() && report.warnings.is_empty());
    }
}

#[test]
fn missing_references_warn_without_failing() {
    let doc = parse_a2ml_string("@abstract: a @end\n# H\n").unwrap();
    let v = Validator::new(parse_a2ml_string("").unwrap(), ValidationMode::Checked);
    let report = v.validate(&doc, &[]);
    assert!(report.valid);
    assert!(report.errors.is_empty());
    assert_eq!(report.warnings.len(), 1);
}

#[test]
fn texts_hold_their_parts() {
    assert!(holds_text("source protection", "protect"));
    assert!(holds_text("abc", ""));
    assert!(holds_text("", ""));
    assert!(!holds_text("abc", "abcd"));
    assert!(!holds_text("Source", "source"));
}
