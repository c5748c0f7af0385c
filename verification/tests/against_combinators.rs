use nom::branch::alt;
use nom::bytes::complete::{tag, take_until, take_while1};
use nom::character::complete::{
    char, line_ending, multispace0, not_line_ending, space0, space1,
};
use nom::combinator::opt;
use nom::multi::{many0, many1};
use nom::sequence::{preceded, terminated, tuple};
use nom::IResult;
use union_policy_parser::parser::{
    abstract_directive, bullet_list, code_block, content_block, heading, horizontal_rule,
    list_item, paragraph, parse_a2ml_string, reference, refs_directive, requires_directive,
    section, A2mlDocument, Attestation, ContentBlock, Reference, Section,
};

fn c_document(input: &str) -> IResult<&str, A2mlDocument> {
    let (input, _) = multispace0(input)?;
    let (input, abstract_text) = opt(c_abstract)(input)?;
    let (input, _) = multispace0(input)?;
    let (input, requirements) = opt(c_requires)(input)?;
    let (input, _) = multispace0(input)?;
    let (input, sections) = many0(c_section)(input)?;
    let (input, _) = multispace0(input)?;
    let (input, references) = opt(c_refs)(input)?;
    let (input, _) = multispace0(input)?;
    Ok((
        input,
        A2mlDocument {
            abstract_text,
            sections,
            references: references.unwrap_or_default(),
            requirements: requirements.unwrap_or_default(),
            raw: input.to_string(),
        },
    ))
}

fn c_abstract(input: &str) -> IResult<&str, String> {
    let (input, _) = tag("@abstract:")(input)?;
    let (input, _) = multispace0(input)?;
    let (input, content) = take_until("@end")(input)?;
    let (input, _) = tag("@end")(input)?;
    let (input, _) = multispace0(input)?;
    Ok((input, content.trim().to_string()))
}

fn c_requires(input: &str) -> IResult<&str, Vec<String>> {
    let (input, _) = tag("@requires:")(input)?;
    let (input, _) = multispace0(input)?;
    let (input, items) = many1(terminated(
        preceded(tuple((char('-'), space0)), nom::combinator::map(not_line_ending, |s: &str| s.trim().to_string())),
        line_ending,
    ))(input)?;
    let (input, _) = tag("@end")(input)?;
    let (input, _) = multispace0(input)?;
    Ok((input, items))
}

fn c_refs(input: &str) -> IResult<&str, Vec<Reference>> {
    let (input, _) = tag("@refs:")(input)?;
    let (input, _) = multispace0(input)?;
    let (input, refs) = many1(c_reference)(input)?;
    let (input, _) = tag("@end")(input)?;
    let (input, _) = multispace0(input)?;
    Ok((input, refs))
}

fn c_reference(input: &str) -> IResult<&str, Reference> {
    let (input, _) = char('[')(input)?;
    let (input, id) = take_while1(|c: char| c.is_numeric())(input)?;
    let (input, _) = char(']')(input)?;
    let (input, _) = space0(input)?;
    let (input, text) = not_line_ending(input)?;
    let (input, _) = line_ending(input)?;
    let text_str = text.trim();
    let (text_final, url) = if text_str.contains("http://") || text_str.contains("https://") {
        if let Some(start) = text_str.find("http") {
            let url_part = &text_str[start..];
            let url_end =
                url_part.find(|c: char| c.is_whitespace() || c == ')').unwrap_or(url_part.len());
            (text_str[..start].trim().to_string(), Some(url_part[..url_end].to_string()))
        } else {
            (text_str.to_string(), None)
        }
    } else {
        (text_str.to_string(), None)
    };
    Ok((input, Reference { id: id.to_string(), text: text_final, url }))
}

fn c_section(input: &str) -> IResult<&str, Section> {
    let (input, (level, heading)) = c_heading(input)?;
    let (input, _) = multispace0(input)?;
    let (input, blocks) = many0(terminated(c_content_block, multispace0))(input)?;
    let attestations = c_attestations(&blocks);
    Ok((input, Section { heading, level, content: blocks, attestations, line_number: 0 }))
}

fn c_heading(input: &str) -> IResult<&str, (u8, String)> {
    let (input, hashes) = take_while1(|c| c == '#')(input)?;
    let (input, _) = space1(input)?;
    let (input, text) = not_line_ending(input)?;
    let (input, _) = line_ending(input)?;
    Ok((input, (hashes.len().min(6) as u8, text.trim().to_string())))
}

fn c_content_block(input: &str) -> IResult<&str, ContentBlock> {
    alt((c_horizontal_rule, c_bullet_list, c_code_block, c_paragraph))(input)
}

fn c_is_paragraph_line(input: &str) -> bool {
    !(input.is_empty()
        || input.starts_with('#')
        || input.starts_with("---")
        || input.starts_with("```")
        || input.starts_with('@')
        || input.starts_with("- "))
}

fn c_paragraph_line(input: &str) -> IResult<&str, &str> {
    if !c_is_paragraph_line(input) {
        return Err(nom::Err::Error(nom::error::Error::new(input, nom::error::ErrorKind::Verify)));
    }
    not_line_ending(input)
}

fn c_paragraph(input: &str) -> IResult<&str, ContentBlock> {
    let (input, lines) = many1(terminated(c_paragraph_line, line_ending))(input)?;
    let text = lines.join("\n").trim().to_string();
    if text.is_empty() {
        return Err(nom::Err::Error(nom::error::Error::new(input, nom::error::ErrorKind::Verify)));
    }
    Ok((input, ContentBlock::Paragraph(text)))
}

fn c_bullet_list(input: &str) -> IResult<&str, ContentBlock> {
    let (input, items) = many1(c_list_item)(input)?;
    Ok((input, ContentBlock::BulletList(items)))
}

fn c_list_item(input: &str) -> IResult<&str, String> {
    let (input, _) = char('-')(input)?;
    let (input, _) = space1(input)?;
    let (input, text) = not_line_ending(input)?;
    let (input, _) = line_ending(input)?;
    Ok((input, text.trim().to_string()))
}

fn c_horizontal_rule(input: &str) -> IResult<&str, ContentBlock> {
    let (input, _) = tag("---")(input)?;
    let (input, _) = line_ending(input)?;
    Ok((input, ContentBlock::HorizontalRule))
}

fn c_code_block(input: &str) -> IResult<&str, ContentBlock> {
    let (input, _) = tag("```")(input)?;
    let (input, language) = opt(nom::combinator::map(not_line_ending, |s: &str| s.trim().to_string()))(input)?;
    let (input, _) = line_ending(input)?;
    let (input, code) = take_until("```")(input)?;
    let (input, _) = tag("```")(input)?;
    let (input, _) = opt(line_ending)(input)?;
    Ok((input, ContentBlock::CodeBlock { language, code: code.to_string() }))
}

fn c_attestations(blocks: &[ContentBlock]) -> Vec<Attestation> {
    let mut attestations = Vec::new();
    for block in blocks {
        if let ContentBlock::Paragraph(text) = block {
            if text.contains("Attestation:") {
                let parts: Vec<&str> = text.split("Attestation:").collect();
                if parts.len() > 1 {
                    let body = parts[1].trim();
                    let requirement = if body.starts_with("*Must*") {
                        "MUST"
                    } else if body.starts_with("*Should*") {
                        "SHOULD"
                    } else if body.starts_with("*Could*") {
                        "COULD"
                    } else {
                        "MUST"
                    };
                    attestations.push(Attestation {
                        claim: text.lines().next().unwrap_or("").to_string(),
                        requirement: requirement.to_string(),
                        reference: None,
                    });
                }
            }
        }
    }
    attestations
}

struct Texts {
    state: u64,
}

impl Texts {
    fn pick(&mut self, bound: usize) -> usize {
        self.state = self.state.wrapping_mul(6364136223846793005).wrapping_add(1442695040888963407);
        ((self.state >> 33) as usize) % bound
    }

    fn text(&mut self, pieces: &[&str], up_to: usize) -> String {
        let n = self.pick(up_to + 1);
        let mut t = String::new();
        for _ in 0..n {
            t.push_str(pieces[self.pick(pieces.len())]);
        }
        t
    }
}

const PIECES: [&str; 40] = [
    "\n", "\n", "\n", "\n\n", "\r\n", "\r", " ", "\t", "  ", "a", "b c", "text", "#", "## ", "# ",
    "####### ", "-", "- ", "-\t", "---", "--", "```", "``", "`", "@", "@end", "@abstract:",
    "@requires:", "@refs:", "[", "]", "[1]", "[23] ", "[x]", "http://u.v", "https://w", "http",
    ")", "Attestation:", "\u{a0}",
];

const WORDS: [&str; 12] = [
    "*Must*", "*Should*", "*Could*", "Attestation:", " ", "\n", "\r\n", "x", "**", "*",
    "Attestation", ":",
];

fn same<T: std::fmt::Debug, U: std::fmt::Debug>(ours: &T, theirs: &U, text: &str) {
    assert_eq!(format!("{:?}", ours), format!("{:?}", theirs), "on {:?}", text);
}

#[test]
fn documents_agree_with_the_combinator_grammar() {
    let mut texts = Texts { state: 7 };
    let mut documents = 0;
    let mut failures = 0;
    for _ in 0..60000 {
        let t = texts.text(&PIECES, 14);
        let (_, theirs) = c_document(&t).unwrap();
        match parse_a2ml_string(&t) {
            Ok(ours) => {
                same(&ours, &theirs, &t);
                documents += 1;
            }
            Err(_) => {
                assert!(
                    ["@abstract:", "@requires:", "@refs:", "```"]
                        .iter()
                        .any(|open| theirs.raw.starts_with(open)),
                    "on {:?}",
                    t
                );
                failures += 1;
            }
        }
    }
    assert!(documents > 1000 && failures > 1000);
}

#[test]
fn written_documents_agree_with_the_combinator_grammar() {
    let mut texts = Texts { state: 11 };
    let heads = ["", "\n", "@abstract: a\nb @end\n\n", "@abstract:@end"];
    let lists = ["", "@requires:\n- A\n-B\n@end\n", "@requires:\n-\n@end  \n"];
    let tails = ["", "@refs:\n[1] One\n[2] Two (see https://t.wo) more\n@end\n", "trailing\n"];
    for head in heads {
        for list in lists {
            for tail in tails {
                for _ in 0..300 {
                    let mut t = format!("{}{}", head, list);
                    for _ in 0..texts.pick(4) {
                        t.push_str(["# ", "## ", "#### "][texts.pick(3)]);
                        t.push_str("Heading\n");
                        t.push_str(&texts.text(&PIECES[..24], 10));
                        t.push('\n');
                    }
                    t.push_str(tail);
                    let (_, theirs) = c_document(&t).unwrap();
                    if let Ok(ours) = parse_a2ml_string(&t) {
                        same(&ours, &theirs, &t);
                    }
                }
            }
        }
    }
}

#[test]
fn rules_agree_with_the_combinator_grammar() {
    let mut texts = Texts { state: 3 };
    for _ in 0..40000 {
        let t = texts.text(&PIECES, 8);
        same(&heading(&t).ok(), &c_heading(&t).ok(), &t);
        same(&list_item(&t).ok(), &c_list_item(&t).ok(), &t);
        same(&bullet_list(&t).ok(), &c_bullet_list(&t).ok(), &t);
        same(&horizontal_rule(&t).ok(), &c_horizontal_rule(&t).ok(), &t);
        same(&paragraph(&t).ok(), &c_paragraph(&t).ok(), &t);
        same(&reference(&t).ok(), &c_reference(&t).ok(), &t);
        same(&code_block(&t).ok(), &c_code_block(&t).ok(), &t);
        same(&abstract_directive(&t).ok(), &c_abstract(&t).ok(), &t);
        same(&requires_directive(&t).ok(), &c_requires(&t).ok(), &t);
        same(&refs_directive(&t).ok(), &c_refs(&t).ok(), &t);
        if !t.contains("```") {
            same(&content_block(&t).ok(), &c_content_block(&t).ok(), &t);
            same(&section(&t).ok(), &c_section(&t).ok(), &t);
        }
    }
}

#[test]
fn attestations_agree_with_splitting_at_every_mark() {
    let mut texts = Texts { state: 5 };
    for _ in 0..40000 {
        let blocks = vec![
            ContentBlock::Paragraph(texts.text(&WORDS, 7)),
            ContentBlock::BulletList(vec![texts.text(&WORDS, 3)]),
            ContentBlock::Paragraph(texts.text(&WORDS, 7)),
        ];
        let ours = union_policy_parser::parser::extract_attestations(&blocks);
        same(&ours, &c_attestations(&blocks), "attestations");
    }
}
