use union_policy_parser::error::PolicyError;
use union_policy_parser::reporter::{html_escape, GrievanceGenerator, ReportRenderer};
use union_policy_parser::validator::{ClauseCheck, ErrorKind, ValidationReport};

fn sample() -> ValidationReport {
    let mut report = ValidationReport::new("test.a2ml".to_string(), "nuj.a2ml".to_string());
    report.add_error(
        ErrorKind::MissingClause,
        "Missing clause".to_string(),
        Some("Section 1".to_string()),
    );
    report.add_error(ErrorKind::InvalidValue, "Bad <value>".to_string(), None);
    report.add_warning("No references".to_string(), Some("end".to_string()));
    report.add_clause_check(ClauseCheck {
        clause: "source-protection".to_string(),
        present: true,
        value: Some("guaranteed".to_string()),
        expected: None,
    });
    report.add_clause_check(ClauseCheck {
        clause: "fairness".to_string(),
        present: false,
        value: None,
        expected: None,
    });
    report
}

#[test]
fn markdown_of_an_empty_report() {
    let report = ValidationReport::new("c.a2ml".to_string(), "s.a2ml".to_string());
    let md = ReportRenderer::render_markdown(&report).unwrap();
    assert_eq!(
        md,
        "# Validation Report\n\n**Contract:** `c.a2ml`\n**Schema:** `s.a2ml`\n\n## \u{2705} VALID\n\n"
    );
}

#[test]
fn markdown_of_a_full_report() {
    let md = ReportRenderer::render_markdown(&sample()).unwrap();
    let expected = "# Validation Report\n\n\
                    **Contract:** `test.a2ml`\n\
                    **Schema:** `nuj.a2ml`\n\n\
                    ## \u{274c} INVALID\n\n\
                    ### Errors\n\n\
                    - **MissingClause**: Missing clause\n\
                    \x20 - Location: Section 1\n\
                    - **InvalidValue**: Bad <value>\n\n\
                    ### Warnings\n\n\
                    - No references\n\n\
                    ### Required Clauses\n\n\
                    | Clause | Present | Value |\n\
                    |--------|---------|-------|\n\
                    | source-protection | \u{2713} | guaranteed |\n\
                    | fairness | \u{2717} | N/A |\n";
    assert_eq!(md, expected);
}

#[test]
fn html_is_escaped_markdown() {
    let report = sample();
    let md = ReportRenderer::render_markdown(&report).unwrap();
    let html = ReportRenderer::render_html(&report).unwrap();
    assert!(html.starts_with("<pre># Validation Report\n\n"));
    assert!(html.ends_with("| fairness | \u{2717} | N/A |\n</pre>"));
    assert!(html.contains("Bad &lt;value&gt;"));
    assert_eq!(html, format!("<pre>{}</pre>", md.replace('<', "&lt;").replace('>', "&gt;")));
}

#[test]
fn escaping() {
    assert_eq!(html_escape("a & b < c > d \"e\" 'f'"), "a &amp; b &lt; c &gt; d &quot;e&quot; 'f'");
    assert_eq!(html_escape("&amp;&lt;"), "&amp;amp;&amp;lt;");
    assert_eq!(html_escape(""), "");
    assert_eq!(html_escape("\u{e9}<\u{1f600}>"), "\u{e9}&lt;\u{1f600}&gt;");
    for t in ["<<>>", "&&", "\"\"", "plain", "a&b<c>d\"e"] {
        let by_std =
            t.replace('&', "&amp;").replace('<', "&lt;").replace('>', "&gt;").replace('"', "&quot;");
        assert_eq!(html_escape(t), by_std);
    }
}

#[test]
fn letter_needs_a_template() {
    let g = GrievanceGenerator::new(Some("nuj".to_string()), None);
    match g.generate("late payment", &sample()) {
        Err(PolicyError::TemplateError(m)) => assert_eq!(m, "No template provided"),
        other => panic!("{:?}", other),
    }
}

#[test]
fn letter_lists_the_errors() {
    let g = GrievanceGenerator::new(Some("nuj".to_string()), Some("template text".to_string()));
    let letter = g.generate("missing-source-protection", &sample()).unwrap();
    assert_eq!(
        letter,
        "# GRIEVANCE LETTER\n\nViolation: missing-source-protection\nUnion: nuj\n\
         Contract: test.a2ml\nSchema: nuj.a2ml\n\nErrors found:\n\
         \x20 - Missing clause\n  - Bad <value>\n"
    );
}

#[test]
fn letter_without_union_or_errors() {
    let g = GrievanceGenerator::new(None, Some(String::new()));
    let report = ValidationReport::new("c".to_string(), "no-schema".to_string());
    let letter = g.generate("v", &report).unwrap();
    assert_eq!(
        letter,
        "# GRIEVANCE LETTER\n\nViolation: v\nUnion: N/A\nContract: c\nSchema: no-schema\n\nErrors found:\n\n"
    );
}

#[test]
fn test_render_json() {
    let mut report = ValidationReport::new("test.a2ml".to_string(), "nuj.a2ml".to_string());
    report.add_error(
        ErrorKind::MissingClause,
        "Missing clause".to_string(),
        Some("Section 1".to_string()),
    );

    let json = ReportRenderer::render_json(&report).unwrap();
    assert!(json.contains("test.a2ml"));
    assert!(json.contains("Missing clause"));
}

#[test]
fn json_of_a_report_with_one_error() {
    let mut report = ValidationReport::new("test.a2ml".to_string(), "nuj.a2ml".to_string());
    report.add_error(
        ErrorKind::MissingClause,
        "Missing clause".to_string(),
        Some("Section 1".to_string()),
    );
    let json = ReportRenderer::render_json(&report).unwrap();
    let expected = r#"{
  "contract": "test.a2ml",
  "errors": [
    {
      "kind": "MissingClause",
      "location": "Section 1",
      "message": "Missing clause"
    }
  ],
  "required_clauses": [],
  "schema": "nuj.a2ml",
  "valid": false,
  "warnings": []
}"#;
    assert_eq!(json, expected);
}

#[test]
fn json_of_a_full_report() {
    let json = ReportRenderer::render_json(&sample()).unwrap();
    let value: serde_json::Value = serde_json::from_str(&json).unwrap();
    assert_eq!(value["contract"], "test.a2ml");
    assert_eq!(value["schema"], "nuj.a2ml");
    assert_eq!(value["valid"], false);
    assert_eq!(value.as_object().unwrap().len(), 6);
    let errors = value["errors"].as_array().unwrap();
    assert_eq!(errors.len(), 2);
    assert_eq!(errors[0]["kind"], "MissingClause");
    assert_eq!(errors[0]["location"], "Section 1");
    assert_eq!(errors[1]["kind"], "InvalidValue");
    assert_eq!(errors[1]["message"], "Bad <value>");
    assert!(errors[1]["location"].is_null());
    assert_eq!(errors[1].as_object().unwrap().len(), 3);
    let warnings = value["warnings"].as_array().unwrap();
    assert_eq!(warnings.len(), 1);
    assert_eq!(warnings[0]["message"], "No references");
    assert_eq!(warnings[0]["location"], "end");
    assert_eq!(warnings[0].as_object().unwrap().len(), 2);
    let clauses = value["required_clauses"].as_array().unwrap();
    assert_eq!(clauses.len(), 2);
    assert_eq!(clauses[0]["clause"], "source-protection");
    assert_eq!(clauses[0]["present"], true);
    assert_eq!(clauses[0]["value"], "guaranteed");
    assert!(clauses[0]["expected"].is_null());
    assert_eq!(clauses[1]["clause"], "fairness");
    assert_eq!(clauses[1]["present"], false);
    assert!(clauses[1]["value"].is_null());
    assert_eq!(clauses[1].as_object().unwrap().len(), 4);
}

#[test]
fn json_value_of_a_report() {
    let value = ReportRenderer::report_value(&sample());
    assert_eq!(value["errors"][0]["message"], "Missing clause");
    assert_eq!(value["required_clauses"][1]["present"], false);
    let empty = ReportRenderer::report_value(&ValidationReport::new(String::new(), String::new()));
    assert_eq!(empty["contract"], "");
    assert_eq!(empty["valid"], true);
    assert!(empty["errors"].as_array().unwrap().is_empty());
    let written = ReportRenderer::json_outcome(Ok("text".to_string())).unwrap();
    assert_eq!(written, "text");
    let failed = serde_json::from_str::<serde_json::Value>("{").unwrap_err();
    let message = failed.to_string();
    match ReportRenderer::json_outcome(Err(failed)) {
        Err(PolicyError::JsonError(m)) => assert_eq!(m, message),
        other => panic!("{:?}", other),
    }
}
