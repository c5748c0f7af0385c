//! The rules of the grammar, each read from a position of the text.

use crate::grammar;
use crate::grammar::Parsed;
use crate::parser::{
    extract_attestations, A2mlDocument, BlockModel, ContentBlock, Reference, ReferenceModel,
    Section, SectionModel,
};
use crate::text::{
    find, has_at, lemma_contains, read_line, read_line_ending, skip_run, string_of, trim_bounds,
    trimmed_string, CharClass,
};
use vstd::prelude::*;
use vstd::slice::slice_subrange;

verus! {

/// What a rule found at a position of the text.
#[derive(Debug)]
pub enum Step<T> {
    /// The rule matches: its value, and the position after what it consumed.
    Done { value: T, next: usize },
    /// The rule does not apply here.
    Absent,
    /// The construct that starts at `at` opens and never closes properly.
    Broken { at: usize },
}

impl<T: DeepView> Step<T> {
    /// The finding, over the models of the values.
    pub open spec fn model(&self) -> Parsed<T::V> {
        match self {
            Step::Done { value, next } => Parsed::Done {
                value: value.deep_view(),
                next: *next as int,
            },
            Step::Absent => Parsed::Absent,
            Step::Broken { at } => Parsed::Broken { at: *at as int },
        }
    }
}

/// What a rule without a `Broken` outcome found, over the model of its value.
pub open spec fn found<T: DeepView>(r: Option<(T, usize)>) -> Option<(T::V, int)> {
    match r {
        Some((value, next)) => Some((value.deep_view(), next as int)),
        None => None,
    }
}

/// The position after the blanks that start at `i`.
pub fn skip_blank(s: &[char], i: usize) -> (r: usize)
    requires
        i <= s@.len(),
    ensures
        r == grammar::blank_end(s@, i as int),
        i <= r <= s@.len(),
{
    skip_run(s, i, s.len(), CharClass::Blank)
}

/// The position after the spaces and tabs that start at `i`.
pub fn skip_inline(s: &[char], i: usize) -> (r: usize)
    requires
        i <= s@.len(),
    ensures
        r == grammar::inline_end(s@, i as int),
        i <= r <= s@.len(),
{
    skip_run(s, i, s.len(), CharClass::Inline)
}

/// The abstract directive at `i`.
pub fn parse_abstract(s: &[char], i: usize) -> (r: Step<String>)
    requires
        i <= s@.len(),
    ensures
        r.model() == grammar::abstract_at(s@, i as int),
        r matches Step::Done { next, .. } ==> i < next <= s@.len(),
{
    let open = "@abstract:";
    let close = "@end";
    if !has_at(s, i, open) {
        return Step::Absent;
    }
    let b: usize = skip_blank(s, i + open.unicode_len());
    match find(s, b, close) {
        Some(e) => {
            let value = trimmed_string(s, b, e);
            let next: usize = skip_blank(s, e + close.unicode_len());
            proof {
                reveal_strlit("@abstract:");
            }
            Step::Done { value, next }
        },
        None => Step::Broken { at: i },
    }
}

/// The dash item at `i`.
pub fn parse_dash_item(s: &[char], i: usize, spaced: bool) -> (r: Option<(String, usize)>)
    requires
        i <= s@.len(),
    ensures
        found(r) == grammar::dash_item_at(s@, i as int, spaced),
        r matches Some((_, next)) ==> i < next <= s@.len(),
{
    if i < s.len() && s[i] == '-' {
        let j: usize = skip_inline(s, i + 1);
        match read_line(s, j) {
            Some((e, n)) => {
                if spaced && j == i + 1 {
                    None
                } else {
                    Some((trimmed_string(s, j, e), n))
                }
            },
            None => None,
        }
    } else {
        None
    }
}

/// The dash items that follow one another from `i` on.
pub fn parse_dash_items(s: &[char], i: usize, spaced: bool) -> (r: (Vec<String>, usize))
    requires
        i <= s@.len(),
    ensures
        (r.0.deep_view(), r.1 as int) == grammar::dash_items_from(s@, i as int, spaced),
        i <= r.1 <= s@.len(),
        r.0@.len() > 0 ==> i < r.1,
{
    let mut items: Vec<String> = Vec::new();
    let mut p: usize = i;
    loop
        invariant
            i <= p <= s@.len(),
            items@.len() > 0 ==> i < p,
            grammar::dash_items_from(s@, i as int, spaced) == (
                items.deep_view() + grammar::dash_items_from(s@, p as int, spaced).0,
                grammar::dash_items_from(s@, p as int, spaced).1,
            ),
        decreases s@.len() - p,
    {
        match parse_dash_item(s, p, spaced) {
            Some((v, n)) => {
                items.push(v);
                p = n;
            },
            None => {
                return (items, p);
            },
        }
    }
}

/// The requirements directive at `i`.
pub fn parse_requires(s: &[char], i: usize) -> (r: Step<Vec<String>>)
    requires
        i <= s@.len(),
    ensures
        r.model() == grammar::requires_at(s@, i as int),
        r matches Step::Done { next, .. } ==> i < next <= s@.len(),
{
    let open = "@requires:";
    let close = "@end";
    if !has_at(s, i, open) {
        return Step::Absent;
    }
    let b: usize = skip_blank(s, i + open.unicode_len());
    let (items, e) = parse_dash_items(s, b, false);
    if items.len() > 0 && has_at(s, e, close) {
        let next: usize = skip_blank(s, e + close.unicode_len());
        proof {
            reveal_strlit("@requires:");
        }
        Step::Done { value: items, next }
    } else {
        Step::Broken { at: i }
    }
}

/// The reference that a number and the trimmed rest of its line make.
pub fn split_reference(id: String, text: &[char]) -> (r: Reference)
    ensures
        r.deep_view() == grammar::reference_of(id@, text@),
{
    let len: usize = text.len();
    proof {
        assert(text@.subrange(0, len as int) =~= text@);
    }
    proof {
        lemma_contains(text@, "http://"@);
        lemma_contains(text@, "https://"@);
    }
    if find(text, 0, "http://").is_some() || find(text, 0, "https://").is_some() {
        match find(text, 0, "http") {
            Some(h) => {
                let end: usize = skip_run(text, h, len, CharClass::UrlText);
                Reference {
                    id,
                    text: trimmed_string(text, 0, h),
                    url: Some(string_of(text, h, end)),
                }
            },
            None => Reference { id, text: string_of(text, 0, len), url: None },
        }
    } else {
        Reference { id, text: string_of(text, 0, len), url: None }
    }
}

/// The reference at `i`.
pub fn parse_reference(s: &[char], i: usize) -> (r: Option<(Reference, usize)>)
    requires
        i <= s@.len(),
    ensures
        found(r) == grammar::reference_at(s@, i as int),
        r matches Some((_, next)) ==> i < next <= s@.len(),
{
    if i < s.len() && s[i] == '[' {
        let d: usize = skip_run(s, i + 1, s.len(), CharClass::Numeric);
        if i + 1 < d && d < s.len() && s[d] == ']' {
            let j: usize = skip_inline(s, d + 1);
            match read_line(s, j) {
                Some((e, n)) => {
                    let id = string_of(s, i + 1, d);
                    let (a, b) = trim_bounds(s, j, e);
                    Some((split_reference(id, slice_subrange(s, a, b)), n))
                },
                None => None,
            }
        } else {
            None
        }
    } else {
        None
    }
}

/// The references that follow one another from `i` on.
pub fn parse_references(s: &[char], i: usize) -> (r: (Vec<Reference>, usize))
    requires
        i <= s@.len(),
    ensures
        (r.0.deep_view(), r.1 as int) == grammar::references_from(s@, i as int),
        i <= r.1 <= s@.len(),
{
    let mut items: Vec<Reference> = Vec::new();
    let mut p: usize = i;
    loop
        invariant
            i <= p <= s@.len(),
            grammar::references_from(s@, i as int) == (
                items.deep_view() + grammar::references_from(s@, p as int).0,
                grammar::references_from(s@, p as int).1,
            ),
        decreases s@.len() - p,
    {
        match parse_reference(s, p) {
            Some((v, n)) => {
                items.push(v);
                p = n;
            },
            None => {
                return (items, p);
            },
        }
    }
}

/// The references directive at `i`.
pub fn parse_refs(s: &[char], i: usize) -> (r: Step<Vec<Reference>>)
    requires
        i <= s@.len(),
    ensures
        r.model() == grammar::refs_at(s@, i as int),
        r matches Step::Done { next, .. } ==> i < next <= s@.len(),
{
    let open = "@refs:";
    let close = "@end";
    if !has_at(s, i, open) {
        return Step::Absent;
    }
    let b: usize = skip_blank(s, i + open.unicode_len());
    let (refs, e) = parse_references(s, b);
    if refs.len() > 0 && has_at(s, e, close) {
        let next: usize = skip_blank(s, e + close.unicode_len());
        proof {
            reveal_strlit("@refs:");
        }
        Step::Done { value: refs, next }
    } else {
        Step::Broken { at: i }
    }
}

/// The heading at `i`: its level and its text.
pub fn parse_heading(s: &[char], i: usize) -> (r: Option<((u8, String), usize)>)
    requires
        i <= s@.len(),
    ensures
        found(r) == grammar::heading_at(s@, i as int),
        r matches Some((_, next)) ==> i < next <= s@.len(),
        r matches Some(((level, _), _)) ==> 1 <= level <= 6,
{
    let h: usize = skip_run(s, i, s.len(), CharClass::Hash);
    let j: usize = skip_inline(s, h);
    if i < h && h < j {
        match read_line(s, j) {
            Some((e, n)) => {
                let count: usize = h - i;
                let level: u8 = if count < 6 {
                    count as u8
                } else {
                    6
                };
                Some(((level, trimmed_string(s, j, e)), n))
            },
            None => None,
        }
    } else {
        None
    }
}

/// The horizontal rule at `i`: the position after it.
pub fn parse_horizontal_rule(s: &[char], i: usize) -> (r: Option<usize>)
    requires
        i <= s@.len(),
    ensures
        r.is_some() == grammar::horizontal_rule_at(s@, i as int).is_some(),
        r matches Some(next) ==> grammar::horizontal_rule_at(s@, i as int) == Some(next as int)
            && i < next <= s@.len(),
{
    let rule = "---";
    if has_at(s, i, rule) {
        read_line_ending(s, i + rule.unicode_len())
    } else {
        None
    }
}

/// The bullet list at `i`: its items.
pub fn parse_bullet_list(s: &[char], i: usize) -> (r: Option<(Vec<String>, usize)>)
    requires
        i <= s@.len(),
    ensures
        found(r) == grammar::bullet_list_at(s@, i as int),
        r matches Some((_, next)) ==> i < next <= s@.len(),
{
    let (items, e) = parse_dash_items(s, i, true);
    if items.len() > 0 {
        Some((items, e))
    } else {
        None
    }
}

/// The code block at `i`.
pub fn parse_code_block(s: &[char], i: usize) -> (r: Step<ContentBlock>)
    requires
        i <= s@.len(),
    ensures
        r.model() == grammar::code_block_at(s@, i as int),
        r matches Step::Done { next, .. } ==> i < next <= s@.len(),
        r matches Step::Broken { at } ==> at == i,
{
    let fence = "```";
    if !has_at(s, i, fence) {
        return Step::Absent;
    }
    let width: usize = fence.unicode_len();
    match read_line(s, i + width) {
        Some((e, n)) => match find(s, n, fence) {
            Some(c) => {
                let language = Some(trimmed_string(s, i + width, e));
                let code = string_of(s, n, c);
                let next: usize = match read_line_ending(s, c + width) {
                    Some(m) => m,
                    None => c + width,
                };
                Step::Done { value: ContentBlock::CodeBlock { language, code }, next }
            },
            None => Step::Broken { at: i },
        },
        None => Step::Broken { at: i },
    }
}

/// Decides whether the text from `i` on may start a line of a paragraph.
pub fn starts_paragraph_line(s: &[char], i: usize) -> (r: bool)
    requires
        i <= s@.len(),
    ensures
        r == grammar::paragraph_line_start(s@, i as int),
{
    if i >= s.len() {
        return false;
    }
    if s[i] == '#' {
        return false;
    }
    if has_at(s, i, "---") {
        return false;
    }
    if has_at(s, i, "```") {
        return false;
    }
    if s[i] == '@' {
        return false;
    }
    if has_at(s, i, "- ") {
        return false;
    }
    true
}

/// The paragraph at `i`: its text.
pub fn parse_paragraph(s: &[char], i: usize) -> (r: Option<(String, usize)>)
    requires
        i <= s@.len(),
    ensures
        found(r) == grammar::paragraph_at(s@, i as int),
        r matches Some((_, next)) ==> i < next <= s@.len(),
{
    let mut joined: Vec<char> = Vec::new();
    let mut p: usize = i;
    let ghost mut lines: Seq<Seq<char>> = Seq::empty();
    loop
        invariant
            i <= p <= s@.len(),
            lines.len() > 0 <==> i < p,
            joined@ == grammar::join_lines(lines),
            grammar::paragraph_lines_from(s@, i as int) == (
                lines + grammar::paragraph_lines_from(s@, p as int).0,
                grammar::paragraph_lines_from(s@, p as int).1,
            ),
        decreases s@.len() - p,
    {
        let line = if starts_paragraph_line(s, p) {
            read_line(s, p)
        } else {
            None
        };
        match line {
            Some((e, n)) => {
                proof {
                    let v = s@.subrange(p as int, e as int);
                    assert(lines.push(v).drop_last() =~= lines);
                }
                if p > i {
                    joined.push('\n');
                }
                let mut k: usize = p;
                while k < e
                    invariant
                        p <= k <= e <= s@.len(),
                        joined@ == (if lines.len() > 0 {
                            grammar::join_lines(lines) + seq!['\n']
                        } else {
                            grammar::join_lines(lines)
                        }) + s@.subrange(p as int, k as int),
                    decreases e - k,
                {
                    joined.push(s[k]);
                    k = k + 1;
                }
                proof {
                    let v = s@.subrange(p as int, e as int);
                    lines = lines.push(v);
                }
                p = n;
            },
            None => {
                let (a, b) = trim_bounds(joined.as_slice(), 0, joined.len());
                if p > i && b > a {
                    return Some((string_of(joined.as_slice(), a, b), p));
                } else {
                    return None;
                }
            },
        }
    }
}

/// The block at `i`.
pub fn parse_content_block(s: &[char], i: usize) -> (r: Step<ContentBlock>)
    requires
        i <= s@.len(),
    ensures
        r.model() == grammar::content_block_at(s@, i as int),
        r matches Step::Done { next, .. } ==> i < next <= s@.len(),
        r matches Step::Broken { at } ==> at == i,
{
    if let Some(n) = parse_horizontal_rule(s, i) {
        return Step::Done { value: ContentBlock::HorizontalRule, next: n };
    }
    if let Some((items, n)) = parse_bullet_list(s, i) {
        return Step::Done { value: ContentBlock::BulletList(items), next: n };
    }
    match parse_code_block(s, i) {
        Step::Absent => match parse_paragraph(s, i) {
            Some((text, n)) => Step::Done { value: ContentBlock::Paragraph(text), next: n },
            None => Step::Absent,
        },
        fenced => fenced,
    }
}

/// The blocks that follow one another from `i` on.
pub fn parse_blocks(s: &[char], i: usize) -> (r: Step<Vec<ContentBlock>>)
    requires
        i <= s@.len(),
    ensures
        r.model() == grammar::blocks_from(s@, i as int),
        !(r is Absent),
        r matches Step::Done { next, .. } ==> i <= next <= s@.len(),
        r matches Step::Broken { at } ==> i <= at <= s@.len(),
{
    let mut blocks: Vec<ContentBlock> = Vec::new();
    let mut p: usize = i;
    loop
        invariant
            i <= p <= s@.len(),
            grammar::blocks_from(s@, i as int) == grammar::after_items(
                blocks.deep_view(),
                grammar::blocks_from(s@, p as int),
            ),
        decreases s@.len() - p,
    {
        match parse_content_block(s, p) {
            Step::Done { value, next } => {
                let q: usize = skip_blank(s, next);
                proof {
                    let v = value.deep_view();
                    let tail = grammar::blocks_from(s@, q as int);
                    if let Parsed::Done { value: rest, next: end } = tail {
                        assert(blocks.deep_view().push(v) + rest =~= blocks.deep_view() + (seq![v]
                            + rest));
                    }
                }
                let ghost before = blocks.deep_view();
                let ghost added = value.deep_view();
                blocks.push(value);
                proof {
                    assert(blocks.deep_view() =~= before.push(added));
                }
                p = q;
            },
            Step::Absent => {
                return Step::Done { value: blocks, next: p };
            },
            Step::Broken { at } => {
                return Step::Broken { at };
            },
        }
    }
}

/// The section at `i`.
pub fn parse_section(s: &[char], i: usize) -> (r: Step<Section>)
    requires
        i <= s@.len(),
    ensures
        r.model() == grammar::section_at(s@, i as int),
        r matches Step::Done { next, .. } ==> i < next <= s@.len(),
        r matches Step::Broken { at } ==> i <= at <= s@.len(),
        r matches Step::Done { value, .. } ==> 1 <= value.level <= 6,
{
    match parse_heading(s, i) {
        Some(((level, heading), n)) => {
            let p: usize = skip_blank(s, n);
            match parse_blocks(s, p) {
                Step::Done { value, next } => {
                    let blocks = value.as_slice();
                    let attestations = extract_attestations(blocks);
                    Step::Done {
                        value: Section {
                            heading,
                            level,
                            content: value,
                            attestations,
                            line_number: 0,
                        },
                        next,
                    }
                },
                Step::Absent => Step::Absent,
                Step::Broken { at } => Step::Broken { at },
            }
        },
        None => Step::Absent,
    }
}

/// The sections that follow one another from `i` on.
pub fn parse_sections(s: &[char], i: usize) -> (r: Step<Vec<Section>>)
    requires
        i <= s@.len(),
    ensures
        r.model() == grammar::sections_from(s@, i as int),
        !(r is Absent),
        r matches Step::Done { next, .. } ==> i <= next <= s@.len(),
        r matches Step::Broken { at } ==> i <= at <= s@.len(),
{
    let mut sections: Vec<Section> = Vec::new();
    let mut p: usize = i;
    loop
        invariant
            i <= p <= s@.len(),
            grammar::sections_from(s@, i as int) == grammar::after_items(
                sections.deep_view(),
                grammar::sections_from(s@, p as int),
            ),
        decreases s@.len() - p,
    {
        match parse_section(s, p) {
            Step::Done { value, next } => {
                proof {
                    let v = value.deep_view();
                    let tail = grammar::sections_from(s@, next as int);
                    if let Parsed::Done { value: rest, next: end } = tail {
                        assert(sections.deep_view().push(v) + rest =~= sections.deep_view() + (
                        seq![v] + rest));
                    }
                }
                let ghost before = sections.deep_view();
                let ghost added = value.deep_view();
                sections.push(value);
                proof {
                    assert(sections.deep_view() =~= before.push(added));
                }
                p = next;
            },
            Step::Absent => {
                return Step::Done { value: sections, next: p };
            },
            Step::Broken { at } => {
                return Step::Broken { at };
            },
        }
    }
}

/// The document that the characters `s` hold, or the position of the
/// construct that makes them malformed.
pub fn parse_document(s: &[char]) -> (r: Result<A2mlDocument, usize>)
    ensures
        match grammar::document_of(s@) {
            Ok(doc) => r is Ok && r->Ok_0.deep_view() == doc && doc.raw.len() <= s@.len()
                && doc.raw == s@.subrange(s@.len() - doc.raw.len(), s@.len() as int),
            Err(at) => r is Err && r->Err_0 as int == at && r->Err_0 <= s@.len(),
        },
{
    let at_abstract: usize = skip_blank(s, 0);
    let (abstract_text, after_abstract) = match parse_abstract(s, at_abstract) {
        Step::Done { value, next } => (Some(value), next),
        Step::Absent => (None, at_abstract),
        Step::Broken { at } => {
            return Err(at);
        },
    };
    let at_requires: usize = skip_blank(s, after_abstract);
    let (requirements, after_requires) = match parse_requires(s, at_requires) {
        Step::Done { value, next } => (value, next),
        Step::Absent => (Vec::new(), at_requires),
        Step::Broken { at } => {
            return Err(at);
        },
    };
    let at_sections: usize = skip_blank(s, after_requires);
    let (sections, after_sections) = match parse_sections(s, at_sections) {
        Step::Done { value, next } => (value, next),
        Step::Absent => (Vec::new(), at_sections),
        Step::Broken { at } => {
            return Err(at);
        },
    };
    let at_refs: usize = skip_blank(s, after_sections);
    let (references, after_refs) = match parse_refs(s, at_refs) {
        Step::Done { value, next } => (value, next),
        Step::Absent => (Vec::new(), at_refs),
        Step::Broken { at } => {
            return Err(at);
        },
    };
    let at_raw: usize = skip_blank(s, after_refs);
    let raw = string_of(s, at_raw, s.len());
    proof {
        assert(requirements.deep_view() =~= grammar::items_of(
            grammar::requires_at(s@, at_requires as int),
        ));
        assert(references.deep_view() =~= grammar::items_of(
            grammar::refs_at(s@, at_refs as int),
        ));
    }
    Ok(A2mlDocument { abstract_text, sections, references, requirements, raw })
}

} // verus!
