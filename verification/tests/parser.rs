use union_policy_parser::parser::{
    abstract_directive, bullet_list, heading, paragraph, parse_a2ml_string, reference,
    requires_directive, ContentBlock,
};

#[test]
fn test_parse_abstract() {
    let input = r#"@abstract:
This is a test abstract.
It has multiple lines.
@end

"#;
    let result = abstract_directive(input);
    assert!(result.is_ok());
    let (_, abstract_text) = result.unwrap();
    assert!(abstract_text.contains("test abstract"));
}

#[test]
fn test_parse_requires() {
    let input = r#"@requires:
- UK Employment Rights Act 1996
- GDPR (EU 2016/679)
@end

"#;
    let result = requires_directive(input);
    assert!(result.is_ok());
    let (_, requirements) = result.unwrap();
    assert_eq!(requirements.len(), 2);
    assert_eq!(requirements[0], "UK Employment Rights Act 1996");
}

#[test]
fn test_parse_reference() {
    let input = "[1] UK Employment Rights Act 1996\n";
    let result = reference(input);
    assert!(result.is_ok());
    let (_, ref_) = result.unwrap();
    assert_eq!(ref_.id, "1");
    assert!(ref_.text.contains("Employment Rights Act"));
}

#[test]
fn test_parse_heading() {
    let input = "## Section Title\n";
    let result = heading(input);
    assert!(result.is_ok());
    let (_, (level, text)) = result.unwrap();
    assert_eq!(level, 2);
    assert_eq!(text, "Section Title");
}

#[test]
fn test_parse_paragraph() {
    let input = "This is a paragraph.\nIt has two lines.\n\n";
    let result = paragraph(input);
    assert!(result.is_ok());
    let (_, block) = result.unwrap();
    if let ContentBlock::Paragraph(text) = block {
        assert!(text.contains("paragraph"));
    } else {
        panic!("Expected paragraph");
    }
}

#[test]
fn test_parse_bullet_list() {
    let input = "- Item 1\n- Item 2\n- Item 3\n\n";
    let result = bullet_list(input);
    assert!(result.is_ok());
    let (_, block) = result.unwrap();
    if let ContentBlock::BulletList(items) = block {
        assert_eq!(items.len(), 3);
        assert_eq!(items[0], "Item 1");
    } else {
        panic!("Expected bullet list");
    }
}

#[test]
fn test_parse_simple_document() {
    let a2ml = r#"
@abstract:
This is a test contract.
@end

@requires:
- UK Employment Rights Act 1996
@end

## Section 1

This is a paragraph.

- Item 1
- Item 2

**Attestation:** *Must* comply with UK law.

@refs:
[1] UK Employment Rights Act 1996
@end
        "#;

    let result = parse_a2ml_string(a2ml);
    assert!(result.is_ok());
    let doc = result.unwrap();
    assert!(doc.abstract_text.is_some());
    assert_eq!(doc.requirements.len(), 1);
    assert_eq!(doc.references.len(), 1);
    assert!(doc.sections.len() > 0);
}
