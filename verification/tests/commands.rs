use union_policy_parser::commands::{
    clause_lines, find_clause, render_outline, required_clauses_for, scan_red_flags,
};
use union_policy_parser::parser::{parse_a2ml_string, ContentBlock, Section};
use union_policy_parser::schemas::Union;

#[test]
fn first_section_that_names_the_clause() {
    let doc = parse_a2ml_string("# Intro\n## Payment Terms\n## Late PAYMENT\n").unwrap();
    assert_eq!(find_clause(&doc, "payment"), Some(1));
    assert_eq!(find_clause(&doc, "LATE"), Some(2));
    assert_eq!(find_clause(&doc, ""), Some(0));
    assert_eq!(find_clause(&doc, "kill fee"), None);
    let empty = parse_a2ml_string("").unwrap();
    assert_eq!(find_clause(&empty, ""), None);
}

#[test]
fn lines_of_a_clause() {
    let section = Section {
        heading: "H".to_string(),
        level: 1,
        content: vec![
            ContentBlock::Paragraph("First.\nStill first.".to_string()),
            ContentBlock::HorizontalRule,
            ContentBlock::BulletList(vec!["a".to_string(), "b".to_string()]),
            ContentBlock::CodeBlock { language: None, code: "hidden".to_string() },
            ContentBlock::BulletList(vec![]),
            ContentBlock::Table { headers: vec!["h".to_string()], rows: vec![] },
            ContentBlock::Paragraph("Last.".to_string()),
        ],
        attestations: vec![],
        line_number: 0,
    };
    assert_eq!(clause_lines(&section), vec!["First.\nStill first.", "- a", "- b", "Last."]);
}

#[test]
fn red_flags_in_order() {
    let text = "The client takes All Rights; work is unpaid.";
    let patterns: Vec<String> =
        ["unpaid", "all rights", "zero hours", "All Rights", ""].iter().map(|p| p.to_string()).collect();
    assert_eq!(scan_red_flags(text, &patterns, false), vec!["unpaid", "All Rights", ""]);
    assert_eq!(scan_red_flags(text, &patterns, true), vec!["unpaid", "all rights", "All Rights", ""]);
    assert!(scan_red_flags(text, &[], true).is_empty());
    assert!(scan_red_flags("", &patterns[..4], true).is_empty());
}

#[test]
fn outline_of_a_document() {
    let doc = parse_a2ml_string("@abstract: Terms. @end\n# One\n\ntext\n\n###### Six\n## Two\n").unwrap();
    assert_eq!(
        render_outline(&doc),
        "## Abstract\n\nTerms.\n\n## One\n\n####### Six\n\n### Two\n\n"
    );
    let bare = parse_a2ml_string("# Only\n").unwrap();
    assert_eq!(render_outline(&bare), "## Only\n\n");
    assert_eq!(render_outline(&parse_a2ml_string("").unwrap()), "");
}

#[test]
fn clauses_to_check() {
    let given = vec!["mine".to_string()];
    assert_eq!(required_clauses_for(given.clone(), None), vec!["mine"]);
    assert_eq!(
        required_clauses_for(given, Some(Union::Ucu)),
        vec![
            "mine",
            "academic-freedom",
            "workload-limits",
            "research-time",
            "teaching-load",
            "no-casualization"
        ]
    );
    assert_eq!(required_clauses_for(Vec::new(), Some(Union::Iww)).len(), 6);
    assert!(required_clauses_for(Vec::new(), None).is_empty());
}
