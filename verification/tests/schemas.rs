use union_policy_parser::schemas::{Union, UnionRules};

#[test]
fn test_union_from_str() {
    assert_eq!(Union::from_str("nuj").unwrap(), Union::Nuj);
    assert_eq!(Union::from_str("NUJ").unwrap(), Union::Nuj);
    assert!(Union::from_str("unknown").is_err());
}

#[test]
fn test_nuj_required_clauses() {
    let clauses = Union::Nuj.required_clauses();
    assert!(clauses.contains(&"source-protection"));
    assert!(clauses.contains(&"editorial-independence"));
}

#[test]
fn test_iww_red_flags() {
    let patterns = Union::Iww.red_flag_patterns();
    assert!(patterns.contains(&"free trial"));
    assert!(patterns.contains(&"spec work"));
}

#[test]
fn test_nuj_clause_check() {
    let rules = UnionRules::new(Union::Nuj);
    assert!(rules.check_clause_value("source-protection", "guaranteed").unwrap());
    assert!(!rules.check_clause_value("source-protection", "optional").unwrap());
}

#[test]
fn test_iww_clause_check() {
    let rules = UnionRules::new(Union::Iww);
    assert!(rules.check_clause_value("payment-terms.net-days", "30").unwrap());
    assert!(!rules.check_clause_value("payment-terms.net-days", "60").unwrap());
}
