//! The document tree and the parser that builds it from A2ML text.

use crate::error::{joined, ErrorModel, PolicyError};
use crate::grammar;
use crate::grammar::Parsed;
use crate::laws::{law_sections_are_sound, lemma_section_is_sound};
use crate::rules::{
    parse_abstract, parse_bullet_list, parse_code_block, parse_content_block, parse_dash_item,
    parse_document, parse_heading, parse_horizontal_rule, parse_paragraph, parse_reference,
    parse_refs, parse_requires, parse_section, starts_paragraph_line, Step,
};
use crate::text::{
    find, has_at, read_line_text, rest_of, skip_run, string_of, to_chars, trim_bounds, CharClass,
};
use vstd::prelude::*;
use vstd::slice::slice_subrange;
use vstd::string::StringExecFns;

verus! {


/// What a `Reference` holds.
pub struct ReferenceModel {
    pub id: Seq<char>,
    pub text: Seq<char>,
    pub url: Option<Seq<char>>,
}

/// What an `Attestation` holds.
pub struct AttestationModel {
    pub claim: Seq<char>,
    pub requirement: Seq<char>,
    pub reference: Option<Seq<char>>,
}

/// What a `ContentBlock` holds.
pub enum BlockModel {
    Paragraph(Seq<char>),
    BulletList(Seq<Seq<char>>),
    Table { headers: Seq<Seq<char>>, rows: Seq<Seq<Seq<char>>> },
    CodeBlock { language: Option<Seq<char>>, code: Seq<char> },
    HorizontalRule,
}

/// What a `Section` holds.
pub struct SectionModel {
    pub heading: Seq<char>,
    pub level: u8,
    pub content: Seq<BlockModel>,
    pub attestations: Seq<AttestationModel>,
    pub line_number: usize,
}

/// What an `A2mlDocument` holds.
pub struct DocumentModel {
    pub abstract_text: Option<Seq<char>>,
    pub sections: Seq<SectionModel>,
    pub references: Seq<ReferenceModel>,
    pub requirements: Seq<Seq<char>>,
    pub raw: Seq<char>,
}

/// A parsed A2ML document.
#[derive(Debug, Clone)]
pub struct A2mlDocument {
    /// The abstract, where the document has one.
    pub abstract_text: Option<String>,
    /// The sections, in the order of the text.
    pub sections: Vec<Section>,
    /// The numbered references.
    pub references: Vec<Reference>,
    /// The requirements, in the order of the text.
    pub requirements: Vec<String>,
    /// The text that no rule consumed.
    pub raw: String,
}

/// A heading with the blocks that follow it.
#[derive(Debug, Clone)]
pub struct Section {
    /// The heading's text.
    pub heading: String,
    /// The heading's level, from 1 to 6.
    pub level: u8,
    /// The blocks under the heading.
    pub content: Vec<ContentBlock>,
    /// The attestations found in the paragraphs of `content`.
    pub attestations: Vec<Attestation>,
    /// The line on which the section starts; not tracked, always 0.
    pub line_number: usize,
}

/// One block of a section.
#[derive(Debug, Clone)]
pub enum ContentBlock {
    Paragraph(String),
    BulletList(Vec<String>),
    /// Reserved: no rule of the grammar produces a table.
    Table { headers: Vec<String>, rows: Vec<Vec<String>> },
    CodeBlock { language: Option<String>, code: String },
    HorizontalRule,
}

/// A normative claim found in a paragraph.
#[derive(Debug, Clone)]
pub struct Attestation {
    /// The first line of the paragraph that holds the claim.
    pub claim: String,
    /// The strength of the claim: `MUST`, `SHOULD` or `COULD`.
    pub requirement: String,
    /// An outside reference; not extracted, always `None`.
    pub reference: Option<String>,
}

/// A numbered reference.
#[derive(Debug, Clone)]
pub struct Reference {
    /// The number between the brackets.
    pub id: String,
    /// The descriptive text.
    pub text: String,
    /// The link, where the text holds one.
    pub url: Option<String>,
}

impl DeepView for Reference {
    type V = ReferenceModel;

    open spec fn deep_view(&self) -> ReferenceModel {
        ReferenceModel { id: self.id@, text: self.text@, url: self.url.deep_view() }
    }
}

impl View for Reference {
    type V = ReferenceModel;

    open spec fn view(&self) -> ReferenceModel {
        self.deep_view()
    }
}

impl DeepView for Attestation {
    type V = AttestationModel;

    open spec fn deep_view(&self) -> AttestationModel {
        AttestationModel {
            claim: self.claim@,
            requirement: self.requirement@,
            reference: self.reference.deep_view(),
        }
    }
}

impl View for Attestation {
    type V = AttestationModel;

    open spec fn view(&self) -> AttestationModel {
        self.deep_view()
    }
}

impl DeepView for ContentBlock {
    type V = BlockModel;

    open spec fn deep_view(&self) -> BlockModel {
        match self {
            ContentBlock::Paragraph(text) => BlockModel::Paragraph(text@),
            ContentBlock::BulletList(items) => BlockModel::BulletList(items.deep_view()),
            ContentBlock::Table { headers, rows } => BlockModel::Table {
                headers: headers.deep_view(),
                rows: rows.deep_view(),
            },
            ContentBlock::CodeBlock { language, code } => BlockModel::CodeBlock {
                language: language.deep_view(),
                code: code@,
            },
            ContentBlock::HorizontalRule => BlockModel::HorizontalRule,
        }
    }
}

impl View for ContentBlock {
    type V = BlockModel;

    open spec fn view(&self) -> BlockModel {
        self.deep_view()
    }
}

impl DeepView for Section {
    type V = SectionModel;

    open spec fn deep_view(&self) -> SectionModel {
        SectionModel {
            heading: self.heading@,
            level: self.level,
            content: self.content.deep_view(),
            attestations: self.attestations.deep_view(),
            line_number: self.line_number,
        }
    }
}

impl View for Section {
    type V = SectionModel;

    open spec fn view(&self) -> SectionModel {
        self.deep_view()
    }
}

impl DeepView for A2mlDocument {
    type V = DocumentModel;

    open spec fn deep_view(&self) -> DocumentModel {
        DocumentModel {
            abstract_text: self.abstract_text.deep_view(),
            sections: self.sections.deep_view(),
            references: self.references.deep_view(),
            requirements: self.requirements.deep_view(),
            raw: self.raw@,
        }
    }
}

impl View for A2mlDocument {
    type V = DocumentModel;

    open spec fn view(&self) -> DocumentModel {
        self.deep_view()
    }
}

impl Section {
    /// Whether the section is such as the parser builds: its level is from
    /// 1 to 6, its blocks are such as the grammar produces, its attestations
    /// are those of its blocks, and its line number is 0.
    pub open spec fn well_formed(&self) -> bool {
        grammar::sound_section(self@)
    }
}

impl A2mlDocument {
    /// Whether the document is such as the parser builds: each of its
    /// sections is well-formed.
    pub open spec fn well_formed(&self) -> bool {
        grammar::sound_document(self@)
    }
}

/// The strength that the body of an attestation states.
pub fn strength(body: &[char]) -> (r: String)
    ensures
        r@ == grammar::strength_of(body@),
{
    if has_at(body, 0, "*Must*") {
        String::from_str("MUST")
    } else if has_at(body, 0, "*Should*") {
        String::from_str("SHOULD")
    } else if has_at(body, 0, "*Could*") {
        String::from_str("COULD")
    } else {
        String::from_str("MUST")
    }
}

/// The first line of `text`.
pub fn first_line(text: &[char]) -> (r: String)
    ensures
        r@ == grammar::first_line(text@),
{
    let e: usize = skip_run(text, 0, text.len(), CharClass::NoFeed);
    if 0 < e && e < text.len() && text[e - 1] == '\r' {
        string_of(text, 0, e - 1)
    } else {
        string_of(text, 0, e)
    }
}

/// The attestation in a paragraph, where it holds one.
pub fn attestation_in(text: &str) -> (r: Option<Attestation>)
    ensures
        r.deep_view() == grammar::attestation_of(text@),
{
    let t = to_chars(text);
    let mark = "Attestation:";
    match find(t.as_slice(), 0, mark) {
        Some(k) => {
            let (a, b) = trim_bounds(t.as_slice(), k + mark.unicode_len(), t.len());
            Some(
                Attestation {
                    claim: first_line(t.as_slice()),
                    requirement: strength(slice_subrange(t.as_slice(), a, b)),
                    reference: None,
                },
            )
        },
        None => None,
    }
}

/// The attestations of the paragraphs among `blocks`, in their order. No
/// block is changed or dropped; blocks that are no paragraphs add nothing.
pub fn extract_attestations(blocks: &[ContentBlock]) -> (r: Vec<Attestation>)
    ensures
        r.deep_view() == grammar::attestations_of(blocks.deep_view()),
{
    let mut found: Vec<Attestation> = Vec::new();
    let mut k: usize = 0;
    while k < blocks.len()
        invariant
            k <= blocks@.len(),
            found.deep_view() == grammar::attestations_of(blocks.deep_view().subrange(0, k as int)),
        decreases blocks@.len() - k,
    {
        proof {
            let upto = blocks.deep_view().subrange(0, k + 1);
            assert(upto.drop_last() =~= blocks.deep_view().subrange(0, k as int));
        }
        if let ContentBlock::Paragraph(text) = &blocks[k] {
            if let Some(a) = attestation_in(text.as_str()) {
                found.push(a);
            }
        }
        k = k + 1;
    }
    proof {
        assert(blocks.deep_view().subrange(0, blocks@.len() as int) =~= blocks.deep_view());
    }
    found
}

/// Whether `r` is what parsing the text `s` gives: the document that the
/// grammar finds in it, or, for a malformed text, the error that quotes it
/// from the broken construct on.
pub open spec fn is_parse_of(r: Result<A2mlDocument, PolicyError>, s: Seq<char>) -> bool {
    match grammar::document_of(s) {
        Ok(doc) => r is Ok && r->Ok_0.deep_view() == doc,
        Err(at) => r is Err && r->Err_0.deep_view() == ErrorModel::ParseError(
            grammar::parse_error_message(s, at),
        ),
    }
}

/// Parses A2ML text. The result is the document that the grammar finds in
/// `content`; where a directive or a code fence opens and does not close
/// properly there is no document, and the error quotes the text from that
/// construct on.
pub fn parse_a2ml_string(content: &str) -> (r: Result<A2mlDocument, PolicyError>)
    ensures
        is_parse_of(r, content@),
        r matches Ok(doc) ==> doc.well_formed(),
{
    proof {
        law_sections_are_sound(content@);
    }
    let s = to_chars(content);
    match parse_document(s.as_slice()) {
        Ok(doc) => Ok(doc),
        Err(at) => {
            let end: usize = if s.len() - at > 50 {
                at + 50
            } else {
                s.len()
            };
            let snippet = string_of(s.as_slice(), at, end);
            Err(PolicyError::ParseError(joined("Parse error at: ", snippet.as_str())))
        },
    }
}

/// Why a rule gave no value.
#[derive(Debug, Clone, Copy, PartialEq, Eq, Structural)]
pub enum Mismatch {
    /// The rule does not apply at the start of the input.
    Absent,
    /// The construct that starts at the character `at` opens and never
    /// closes properly.
    Broken { at: usize },
}

/// Whether `r` reports, for a rule tried at the start of `input`, what the
/// grammar finds there: the value with the rest of the input, or the reason
/// for which there is none.
pub open spec fn reports<T: DeepView>(
    r: Result<(&str, T), Mismatch>,
    input: Seq<char>,
    p: Parsed<T::V>,
) -> bool {
    match p {
        Parsed::Done { value, next } => r is Ok && r->Ok_0.1.deep_view() == value
            && r->Ok_0.0@ == input.subrange(next, input.len() as int),
        Parsed::Absent => r == Err::<(&str, T), Mismatch>(Mismatch::Absent),
        Parsed::Broken { at } => 0 <= at <= usize::MAX && r == Err::<(&str, T), Mismatch>(
            Mismatch::Broken { at: at as usize },
        ),
    }
}

/// The finding of a rule that is never `Broken`.
pub open spec fn plain<T>(r: Option<(T, int)>) -> Parsed<T> {
    match r {
        Some((value, next)) => Parsed::Done { value, next },
        None => Parsed::Absent,
    }
}

/// Hands on what a rule found at the start of `input`.
fn report<'a, T: DeepView>(input: &'a str, step: Step<T>) -> (r: Result<(&'a str, T), Mismatch>)
    requires
        step matches Step::Done { next, .. } ==> next <= input@.len(),
    ensures
        reports(r, input@, step.model()),
{
    match step {
        Step::Done { value, next } => Ok((rest_of(input, next), value)),
        Step::Absent => Err(Mismatch::Absent),
        Step::Broken { at } => Err(Mismatch::Broken { at }),
    }
}

/// The whole document at the start of `input`, with the rest of the input,
/// which is the document's `raw`.
pub fn document(input: &str) -> (r: Result<(&str, A2mlDocument), Mismatch>)
    ensures
        match grammar::document_of(input@) {
            Ok(doc) => r is Ok && r->Ok_0.1.deep_view() == doc && r->Ok_0.0@ == doc.raw
                && r->Ok_0.1.well_formed(),
            Err(at) => 0 <= at <= usize::MAX && r == Err::<(&str, A2mlDocument), Mismatch>(
                Mismatch::Broken { at: at as usize },
            ),
        },
{
    proof {
        law_sections_are_sound(input@);
    }
    let s = to_chars(input);
    match parse_document(s.as_slice()) {
        Ok(doc) => {
            let consumed: usize = s.len() - doc.raw.as_str().unicode_len();
            Ok((rest_of(input, consumed), doc))
        },
        Err(at) => Err(Mismatch::Broken { at }),
    }
}

/// The abstract directive at the start of `input`.
pub fn abstract_directive(input: &str) -> (r: Result<(&str, String), Mismatch>)
    ensures
        reports(r, input@, grammar::abstract_at(input@, 0)),
{
    let s = to_chars(input);
    report(input, parse_abstract(s.as_slice(), 0))
}

/// The requirements directive at the start of `input`.
pub fn requires_directive(input: &str) -> (r: Result<(&str, Vec<String>), Mismatch>)
    ensures
        reports(r, input@, grammar::requires_at(input@, 0)),
{
    let s = to_chars(input);
    report(input, parse_requires(s.as_slice(), 0))
}

/// The references directive at the start of `input`.
pub fn refs_directive(input: &str) -> (r: Result<(&str, Vec<Reference>), Mismatch>)
    ensures
        reports(r, input@, grammar::refs_at(input@, 0)),
{
    let s = to_chars(input);
    report(input, parse_refs(s.as_slice(), 0))
}

/// Hands on what a rule that is never `Broken` found at the start of `input`.
fn report_plain<'a, T: DeepView>(input: &'a str, found: Option<(T, usize)>) -> (r: Result<
    (&'a str, T),
    Mismatch,
>)
    requires
        found matches Some((_, next)) ==> next <= input@.len(),
    ensures
        reports(r, input@, plain(crate::rules::found(found))),
{
    match found {
        Some((value, next)) => Ok((rest_of(input, next), value)),
        None => Err(Mismatch::Absent),
    }
}

/// The reference at the start of `input`.
pub fn reference(input: &str) -> (r: Result<(&str, Reference), Mismatch>)
    ensures
        reports(r, input@, plain(grammar::reference_at(input@, 0))),
{
    let s = to_chars(input);
    report_plain(input, parse_reference(s.as_slice(), 0))
}

/// The section at the start of `input`.
pub fn section(input: &str) -> (r: Result<(&str, Section), Mismatch>)
    ensures
        reports(r, input@, grammar::section_at(input@, 0)),
        r matches Ok((_, value)) ==> value.well_formed(),
{
    proof {
        lemma_section_is_sound(input@, 0);
    }
    let s = to_chars(input);
    report(input, parse_section(s.as_slice(), 0))
}

/// The heading at the start of `input`: its level and its text.
pub fn heading(input: &str) -> (r: Result<(&str, (u8, String)), Mismatch>)
    ensures
        reports(r, input@, plain(grammar::heading_at(input@, 0))),
        r matches Ok((_, (level, _))) ==> 1 <= level <= 6,
{
    let s = to_chars(input);
    report_plain(input, parse_heading(s.as_slice(), 0))
}

/// The block at the start of `input`.
pub fn content_block(input: &str) -> (r: Result<(&str, ContentBlock), Mismatch>)
    ensures
        reports(r, input@, grammar::content_block_at(input@, 0)),
{
    let s = to_chars(input);
    report(input, parse_content_block(s.as_slice(), 0))
}

/// Whether `input` may start a line of a paragraph: it is not empty and
/// starts neither a heading, a rule, a fence, a directive nor a list item.
pub fn is_paragraph_line(input: &str) -> (r: bool)
    ensures
        r == grammar::paragraph_line_start(input@, 0),
{
    let s = to_chars(input);
    starts_paragraph_line(s.as_slice(), 0)
}

/// The text of the paragraph line at the start of `input`, up to its line
/// ending or the end of the input, and the rest from there on.
pub fn paragraph_line(input: &str) -> (r: Result<(&str, &str), Mismatch>)
    ensures
        match grammar::paragraph_line_at(input@, 0) {
            Some(e) => r is Ok && r->Ok_0.1@ == input@.subrange(0, e) && r->Ok_0.0@
                == input@.subrange(e, input@.len() as int),
            None => r == Err::<(&str, &str), Mismatch>(Mismatch::Absent),
        },
{
    let s = to_chars(input);
    if !starts_paragraph_line(s.as_slice(), 0) {
        return Err(Mismatch::Absent);
    }
    match read_line_text(s.as_slice(), 0) {
        Some(e) => Ok((rest_of(input, e), input.substring_char(0, e))),
        None => Err(Mismatch::Absent),
    }
}

/// The paragraph at the start of `input`.
pub fn paragraph(input: &str) -> (r: Result<(&str, ContentBlock), Mismatch>)
    ensures
        reports(
            r,
            input@,
            match grammar::paragraph_at(input@, 0) {
                Some((text, next)) => Parsed::Done { value: BlockModel::Paragraph(text), next },
                None => Parsed::Absent,
            },
        ),
{
    let s = to_chars(input);
    match parse_paragraph(s.as_slice(), 0) {
        Some((text, next)) => Ok((rest_of(input, next), ContentBlock::Paragraph(text))),
        None => Err(Mismatch::Absent),
    }
}

/// The bullet list at the start of `input`.
pub fn bullet_list(input: &str) -> (r: Result<(&str, ContentBlock), Mismatch>)
    ensures
        reports(
            r,
            input@,
            match grammar::bullet_list_at(input@, 0) {
                Some((items, next)) => Parsed::Done { value: BlockModel::BulletList(items), next },
                None => Parsed::Absent,
            },
        ),
{
    let s = to_chars(input);
    match parse_bullet_list(s.as_slice(), 0) {
        Some((items, next)) => Ok((rest_of(input, next), ContentBlock::BulletList(items))),
        None => Err(Mismatch::Absent),
    }
}

/// The list item at the start of `input`: its text.
pub fn list_item(input: &str) -> (r: Result<(&str, String), Mismatch>)
    ensures
        reports(r, input@, plain(grammar::dash_item_at(input@, 0, true))),
{
    let s = to_chars(input);
    report_plain(input, parse_dash_item(s.as_slice(), 0, true))
}

/// The horizontal rule at the start of `input`.
pub fn horizontal_rule(input: &str) -> (r: Result<(&str, ContentBlock), Mismatch>)
    ensures
        reports(
            r,
            input@,
            match grammar::horizontal_rule_at(input@, 0) {
                Some(next) => Parsed::Done { value: BlockModel::HorizontalRule, next },
                None => Parsed::Absent,
            },
        ),
{
    let s = to_chars(input);
    match parse_horizontal_rule(s.as_slice(), 0) {
        Some(next) => Ok((rest_of(input, next), ContentBlock::HorizontalRule)),
        None => Err(Mismatch::Absent),
    }
}

/// The code block at the start of `input`.
pub fn code_block(input: &str) -> (r: Result<(&str, ContentBlock), Mismatch>)
    ensures
        reports(r, input@, grammar::code_block_at(input@, 0)),
{
    let s = to_chars(input);
    report(input, parse_code_block(s.as_slice(), 0))
}

} // verus!
