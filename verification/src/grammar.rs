//! The grammar of A2ML, as functions from a text and a position to what
//! stands there.

use crate::parser::{AttestationModel, BlockModel, DocumentModel, ReferenceModel, SectionModel};
use crate::text::{
    contains, find_from, line_at, line_ending_at, line_text_end, run_end, starts_with_at, trim,
    CharClass,
};
use vstd::prelude::*;

verus! {

/// What a rule finds at a position.
pub enum Parsed<T> {
    /// The rule matches: its value, and the position after what it consumed.
    Done { value: T, next: int },
    /// The rule does not apply here; nothing is consumed.
    Absent,
    /// The construct that starts at `at` opens and never closes properly:
    /// the whole text is malformed.
    Broken { at: int },
}

/// The end of the blank characters that start at `i`.
pub open spec fn blank_end(s: Seq<char>, i: int) -> int {
    run_end(s, i, s.len() as int, CharClass::Blank)
}

/// The end of the spaces and tabs that start at `i`.
pub open spec fn inline_end(s: Seq<char>, i: int) -> int {
    run_end(s, i, s.len() as int, CharClass::Inline)
}

/// Whether `n` is a position of `s` beyond `i`.
pub open spec fn advances(s: Seq<char>, i: int, n: int) -> bool {
    0 <= i < n <= s.len()
}

/// `@abstract:`, free text up to the first `@end`, and the blanks after it.
/// The value is the text, trimmed.
pub open spec fn abstract_at(s: Seq<char>, i: int) -> Parsed<Seq<char>> {
    if starts_with_at(s, i, "@abstract:"@) {
        let b = blank_end(s, i + "@abstract:"@.len());
        match find_from(s, b, "@end"@) {
            Some(e) => Parsed::Done {
                value: trim(s.subrange(b, e)),
                next: blank_end(s, e + "@end"@.len()),
            },
            None => Parsed::Broken { at: i },
        }
    } else {
        Parsed::Absent
    }
}

/// A line that starts with `-`: the dash, spaces or tabs (at least one where
/// `spaced`), and the rest of the line, which is the value once trimmed.
pub open spec fn dash_item_at(s: Seq<char>, i: int, spaced: bool) -> Option<(Seq<char>, int)> {
    if 0 <= i < s.len() && s[i] == '-' {
        let j = inline_end(s, i + 1);
        match line_at(s, j) {
            Some((e, n)) => if spaced && j == i + 1 {
                None
            } else {
                Some((trim(s.subrange(j, e)), n))
            },
            None => None,
        }
    } else {
        None
    }
}

/// The dash items that follow one another from `i` on, and where they end.
pub open spec fn dash_items_from(s: Seq<char>, i: int, spaced: bool) -> (Seq<Seq<char>>, int)
    decreases s.len() - i,
{
    match dash_item_at(s, i, spaced) {
        Some((v, n)) => if advances(s, i, n) {
            let (rest, end) = dash_items_from(s, n, spaced);
            (seq![v] + rest, end)
        } else {
            (Seq::empty(), i)
        },
        None => (Seq::empty(), i),
    }
}

/// `@requires:`, one or more dash items, `@end`, and the blanks after it.
pub open spec fn requires_at(s: Seq<char>, i: int) -> Parsed<Seq<Seq<char>>> {
    if starts_with_at(s, i, "@requires:"@) {
        let b = blank_end(s, i + "@requires:"@.len());
        let (items, e) = dash_items_from(s, b, false);
        if items.len() > 0 && starts_with_at(s, e, "@end"@) {
            Parsed::Done { value: items, next: blank_end(s, e + "@end"@.len()) }
        } else {
            Parsed::Broken { at: i }
        }
    } else {
        Parsed::Absent
    }
}

/// The reference that a number and the trimmed rest of its line make. Where
/// the text holds `http://` or `https://`, the link runs from the first
/// `http` to the next whitespace or `)`, and the text is what stands before
/// it, trimmed.
pub open spec fn reference_of(id: Seq<char>, text: Seq<char>) -> ReferenceModel {
    if contains(text, "http://"@) || contains(text, "https://"@) {
        match find_from(text, 0, "http"@) {
            Some(h) => ReferenceModel {
                id,
                text: trim(text.subrange(0, h)),
                url: Some(
                    text.subrange(h, run_end(text, h, text.len() as int, CharClass::UrlText)),
                ),
            },
            None => ReferenceModel { id, text, url: None },
        }
    } else {
        ReferenceModel { id, text, url: None }
    }
}

/// `[`, one or more numeric characters, `]`, spaces or tabs, and the rest of
/// the line.
pub open spec fn reference_at(s: Seq<char>, i: int) -> Option<(ReferenceModel, int)> {
    if 0 <= i < s.len() && s[i] == '[' {
        let d = run_end(s, i + 1, s.len() as int, CharClass::Numeric);
        if i + 1 < d < s.len() && s[d] == ']' {
            let j = inline_end(s, d + 1);
            match line_at(s, j) {
                Some((e, n)) => Some(
                    (reference_of(s.subrange(i + 1, d), trim(s.subrange(j, e))), n),
                ),
                None => None,
            }
        } else {
            None
        }
    } else {
        None
    }
}

/// The references that follow one another from `i` on, and where they end.
pub open spec fn references_from(s: Seq<char>, i: int) -> (Seq<ReferenceModel>, int)
    decreases s.len() - i,
{
    match reference_at(s, i) {
        Some((v, n)) => if advances(s, i, n) {
            let (rest, end) = references_from(s, n);
            (seq![v] + rest, end)
        } else {
            (Seq::empty(), i)
        },
        None => (Seq::empty(), i),
    }
}

/// `@refs:`, one or more references, `@end`, and the blanks after it.
pub open spec fn refs_at(s: Seq<char>, i: int) -> Parsed<Seq<ReferenceModel>> {
    if starts_with_at(s, i, "@refs:"@) {
        let b = blank_end(s, i + "@refs:"@.len());
        let (refs, e) = references_from(s, b);
        if refs.len() > 0 && starts_with_at(s, e, "@end"@) {
            Parsed::Done { value: refs, next: blank_end(s, e + "@end"@.len()) }
        } else {
            Parsed::Broken { at: i }
        }
    } else {
        Parsed::Absent
    }
}

/// The level of a heading with `count` hashes.
pub open spec fn level_of(count: int) -> u8 {
    if count < 6 {
        count as u8
    } else {
        6
    }
}

/// One or more `#`, one or more spaces or tabs, and the rest of the line:
/// the level and the trimmed text.
pub open spec fn heading_at(s: Seq<char>, i: int) -> Option<((u8, Seq<char>), int)> {
    let h = run_end(s, i, s.len() as int, CharClass::Hash);
    let j = inline_end(s, h);
    if 0 <= i < h < j {
        match line_at(s, j) {
            Some((e, n)) => Some(((level_of(h - i), trim(s.subrange(j, e))), n)),
            None => None,
        }
    } else {
        None
    }
}

/// `---` and a line ending.
pub open spec fn horizontal_rule_at(s: Seq<char>, i: int) -> Option<int> {
    if starts_with_at(s, i, "---"@) {
        line_ending_at(s, i + "---"@.len())
    } else {
        None
    }
}

/// One or more dash items with a space or tab after the dash.
pub open spec fn bullet_list_at(s: Seq<char>, i: int) -> Option<(Seq<Seq<char>>, int)> {
    let (items, e) = dash_items_from(s, i, true);
    if items.len() > 0 {
        Some((items, e))
    } else {
        None
    }
}

/// A fence of three backticks, the language on the rest of its line, the code
/// up to the next fence, that fence, and a line ending if one follows.
pub open spec fn code_block_at(s: Seq<char>, i: int) -> Parsed<BlockModel> {
    if starts_with_at(s, i, "```"@) {
        match line_at(s, i + "```"@.len()) {
            Some((e, n)) => match find_from(s, n, "```"@) {
                Some(c) => Parsed::Done {
                    value: BlockModel::CodeBlock {
                        language: Some(trim(s.subrange(i + "```"@.len(), e))),
                        code: s.subrange(n, c),
                    },
                    next: match line_ending_at(s, c + "```"@.len()) {
                        Some(m) => m,
                        None => c + "```"@.len(),
                    },
                },
                None => Parsed::Broken { at: i },
            },
            None => Parsed::Broken { at: i },
        }
    } else {
        Parsed::Absent
    }
}

/// Whether the text from `i` on may start a line of a paragraph: it is not
/// empty and starts neither a heading, a rule, a fence, a directive nor a
/// list item.
pub open spec fn paragraph_line_start(s: Seq<char>, i: int) -> bool {
    &&& 0 <= i < s.len()
    &&& s[i] != '#'
    &&& !starts_with_at(s, i, "---"@)
    &&& !starts_with_at(s, i, "```"@)
    &&& s[i] != '@'
    &&& !starts_with_at(s, i, "- "@)
}

/// Where the text of the paragraph line that starts at `i` ends.
pub open spec fn paragraph_line_at(s: Seq<char>, i: int) -> Option<int> {
    if paragraph_line_start(s, i) {
        line_text_end(s, i)
    } else {
        None
    }
}

/// The lines of a paragraph that follow one another from `i` on, and where
/// they end.
pub open spec fn paragraph_lines_from(s: Seq<char>, i: int) -> (Seq<Seq<char>>, int)
    decreases s.len() - i,
{
    if paragraph_line_start(s, i) {
        match line_at(s, i) {
            Some((e, n)) => if advances(s, i, n) {
                let (rest, end) = paragraph_lines_from(s, n);
                (seq![s.subrange(i, e)] + rest, end)
            } else {
                (Seq::empty(), i)
            },
            None => (Seq::empty(), i),
        }
    } else {
        (Seq::empty(), i)
    }
}

/// The lines, with a line feed between each two.
pub open spec fn join_lines(lines: Seq<Seq<char>>) -> Seq<char>
    decreases lines.len(),
{
    if lines.len() == 0 {
        Seq::empty()
    } else if lines.len() == 1 {
        lines[0]
    } else {
        join_lines(lines.drop_last()) + seq!['\n'] + lines.last()
    }
}

/// One or more paragraph lines whose joined text is not empty once trimmed.
pub open spec fn paragraph_at(s: Seq<char>, i: int) -> Option<(Seq<char>, int)> {
    let (lines, e) = paragraph_lines_from(s, i);
    let text = trim(join_lines(lines));
    if lines.len() > 0 && text.len() > 0 {
        Some((text, e))
    } else {
        None
    }
}

/// The block at `i`: a rule, else a bullet list, else a code block, else a
/// paragraph.
pub open spec fn content_block_at(s: Seq<char>, i: int) -> Parsed<BlockModel> {
    match horizontal_rule_at(s, i) {
        Some(n) => Parsed::Done { value: BlockModel::HorizontalRule, next: n },
        None => match bullet_list_at(s, i) {
            Some((items, n)) => Parsed::Done { value: BlockModel::BulletList(items), next: n },
            None => match code_block_at(s, i) {
                Parsed::Absent => match paragraph_at(s, i) {
                    Some((text, n)) => Parsed::Done { value: BlockModel::Paragraph(text), next: n },
                    None => Parsed::Absent,
                },
                fenced => fenced,
            },
        },
    }
}

/// The items `front`, followed by those that `r` found.
pub open spec fn after_items<T>(front: Seq<T>, r: Parsed<Seq<T>>) -> Parsed<Seq<T>> {
    match r {
        Parsed::Done { value, next } => Parsed::Done { value: front + value, next },
        other => other,
    }
}

/// The blocks that follow one another from `i` on, each with the blanks after
/// it, and where they end. Never `Absent`.
pub open spec fn blocks_from(s: Seq<char>, i: int) -> Parsed<Seq<BlockModel>>
    decreases s.len() - i,
{
    match content_block_at(s, i) {
        Parsed::Done { value, next } => if advances(s, i, blank_end(s, next)) {
            after_items(seq![value], blocks_from(s, blank_end(s, next)))
        } else {
            Parsed::Done { value: Seq::empty(), next: i }
        },
        Parsed::Absent => Parsed::Done { value: Seq::empty(), next: i },
        Parsed::Broken { at } => Parsed::Broken { at },
    }
}

/// The first line of `text`: what stands before the first line feed, without
/// a carriage return just before that line feed.
pub open spec fn first_line(text: Seq<char>) -> Seq<char> {
    let e = run_end(text, 0, text.len() as int, CharClass::NoFeed);
    if 0 < e < text.len() && text[e - 1] == '\r' {
        text.subrange(0, e - 1)
    } else {
        text.subrange(0, e)
    }
}

/// The strength that the body of an attestation states: `SHOULD` and `COULD`
/// where it starts with `*Should*` or `*Could*`, and `MUST` otherwise.
pub open spec fn strength_of(body: Seq<char>) -> Seq<char> {
    if starts_with_at(body, 0, "*Must*"@) {
        "MUST"@
    } else if starts_with_at(body, 0, "*Should*"@) {
        "SHOULD"@
    } else if starts_with_at(body, 0, "*Could*"@) {
        "COULD"@
    } else {
        "MUST"@
    }
}

/// The attestation in a paragraph: there is one where the text holds
/// `Attestation:`. Its body is what follows the first `Attestation:`,
/// trimmed; its claim is the paragraph's first line.
pub open spec fn attestation_of(text: Seq<char>) -> Option<AttestationModel> {
    match find_from(text, 0, "Attestation:"@) {
        Some(k) => Some(
            AttestationModel {
                claim: first_line(text),
                requirement: strength_of(
                    trim(text.subrange(k + "Attestation:"@.len(), text.len() as int)),
                ),
                reference: None,
            },
        ),
        None => None,
    }
}

/// The attestations of the paragraphs among `blocks`, in their order.
pub open spec fn attestations_of(blocks: Seq<BlockModel>) -> Seq<AttestationModel>
    decreases blocks.len(),
{
    if blocks.len() == 0 {
        Seq::empty()
    } else {
        let before = attestations_of(blocks.drop_last());
        match blocks.last() {
            BlockModel::Paragraph(text) => match attestation_of(text) {
                Some(a) => before.push(a),
                None => before,
            },
            _ => before,
        }
    }
}

/// A heading, the blanks after it, and the blocks that follow.
pub open spec fn section_at(s: Seq<char>, i: int) -> Parsed<SectionModel> {
    match heading_at(s, i) {
        Some(((level, heading), n)) => match blocks_from(s, blank_end(s, n)) {
            Parsed::Done { value, next } => Parsed::Done {
                value: SectionModel {
                    heading,
                    level,
                    content: value,
                    attestations: attestations_of(value),
                    line_number: 0,
                },
                next,
            },
            Parsed::Absent => Parsed::Absent,
            Parsed::Broken { at } => Parsed::Broken { at },
        },
        None => Parsed::Absent,
    }
}

/// The sections that follow one another from `i` on, and where they end.
/// Never `Absent`.
pub open spec fn sections_from(s: Seq<char>, i: int) -> Parsed<Seq<SectionModel>>
    decreases s.len() - i,
{
    match section_at(s, i) {
        Parsed::Done { value, next } => if advances(s, i, next) {
            after_items(seq![value], sections_from(s, next))
        } else {
            Parsed::Done { value: Seq::empty(), next: i }
        },
        Parsed::Absent => Parsed::Done { value: Seq::empty(), next: i },
        Parsed::Broken { at } => Parsed::Broken { at },
    }
}

/// Where a rule that was tried at `i` leaves the position.
pub open spec fn position_after<T>(r: Parsed<T>, i: int) -> int {
    match r {
        Parsed::Done { next, .. } => next,
        _ => i,
    }
}

/// The value of a rule that matched.
pub open spec fn value_of<T>(r: Parsed<T>) -> Option<T> {
    match r {
        Parsed::Done { value, .. } => Some(value),
        _ => None,
    }
}

/// The value of a rule that matched, or no items.
pub open spec fn items_of<T>(r: Parsed<Seq<T>>) -> Seq<T> {
    match r {
        Parsed::Done { value, .. } => value,
        _ => Seq::empty(),
    }
}

/// The document that `s` holds: blanks, an abstract, a list of requirements,
/// sections and a list of references, each of which may be missing, with
/// blanks between them. What follows is kept as `raw`. A directive or a code
/// fence that opens and does not close properly makes the text malformed:
/// the result is then the position at which that construct starts.
pub open spec fn document_of(s: Seq<char>) -> Result<DocumentModel, int> {
    let at_abstract = blank_end(s, 0);
    let head = abstract_at(s, at_abstract);
    let at_requires = blank_end(s, position_after(head, at_abstract));
    let needs = requires_at(s, at_requires);
    let at_sections = blank_end(s, position_after(needs, at_requires));
    let body = sections_from(s, at_sections);
    let at_refs = blank_end(s, position_after(body, at_sections));
    let refs = refs_at(s, at_refs);
    let at_raw = blank_end(s, position_after(refs, at_refs));
    if head is Broken {
        Err(head->at)
    } else if needs is Broken {
        Err(needs->at)
    } else if body is Broken {
        Err(body->at)
    } else if refs is Broken {
        Err(refs->at)
    } else {
        Ok(
            DocumentModel {
                abstract_text: value_of(head),
                sections: items_of(body),
                references: items_of(refs),
                requirements: items_of(needs),
                raw: s.subrange(at_raw, s.len() as int),
            },
        )
    }
}

/// How many characters of the text an error message quotes.
pub open spec fn snippet_len() -> int {
    50
}

/// The message for a text that is malformed at `at`: a fixed prefix and the
/// first characters of the text from `at` on.
pub open spec fn parse_error_message(s: Seq<char>, at: int) -> Seq<char> {
    "Parse error at: "@ + s.subrange(
        at,
        if at + snippet_len() < s.len() {
            at + snippet_len()
        } else {
            s.len() as int
        },
    )
}

/// Whether a block is one that the grammar produces: a paragraph with
/// text, a list with items, a code block with the text of its fence line,
/// or a rule; never a table.
pub open spec fn produced_block(block: BlockModel) -> bool {
    match block {
        BlockModel::Paragraph(text) => text.len() > 0,
        BlockModel::BulletList(items) => items.len() > 0,
        BlockModel::CodeBlock { language, .. } => language is Some,
        BlockModel::HorizontalRule => true,
        BlockModel::Table { .. } => false,
    }
}

/// Whether every block among `blocks` is one that the grammar produces.
pub open spec fn produced_blocks(blocks: Seq<BlockModel>) -> bool {
    forall|k: int| 0 <= k < blocks.len() ==> produced_block(#[trigger] blocks[k])
}

/// What holds of every section that the grammar finds: its level is from 1
/// to 6, its blocks are such as the grammar produces, its attestations are
/// those of its blocks, and its line number is not tracked.
pub open spec fn sound_section(section: SectionModel) -> bool {
    &&& 1 <= section.level <= 6
    &&& produced_blocks(section.content)
    &&& section.attestations == attestations_of(section.content)
    &&& section.line_number == 0
}

/// What holds of every document that the grammar finds: each of its
/// sections is sound.
pub open spec fn sound_document(doc: DocumentModel) -> bool {
    forall|j: int| 0 <= j < doc.sections.len() ==> sound_section(#[trigger] doc.sections[j])
}

} // verus!
