//! What holds of every text: laws of the grammar, each proved.

use crate::error::{ErrorModel, PolicyError};
use crate::grammar::{
    abstract_at, advances, attestation_of, blank_end, blocks_from, bullet_list_at,
    content_block_at, dash_item_at, dash_items_from, document_of, first_line, heading_at,
    paragraph_lines_from, parse_error_message, position_after, produced_block,
    produced_blocks, reference_of, references_from, refs_at, requires_at, section_at,
    sections_from, sound_document, sound_section, strength_of, Parsed,
};
use crate::parser::{is_parse_of, A2mlDocument, BlockModel, DocumentModel};
use crate::text::{
    contains, find_from, lemma_contains, lemma_find_from, lemma_run_end, line_ending_at,
    run_end, starts_with_at, trim, CharClass,
};
use vstd::prelude::*;

verus! {

/// Parsing is a function of the text: two results for the same text are
/// both documents, and then the same document, or both errors, and then the
/// same error.
pub proof fn law_parse_is_deterministic(
    first: Result<A2mlDocument, PolicyError>,
    second: Result<A2mlDocument, PolicyError>,
    s: Seq<char>,
)
    requires
        is_parse_of(first, s),
        is_parse_of(second, s),
    ensures
        first is Ok <==> second is Ok,
        first is Ok ==> first->Ok_0.deep_view() == second->Ok_0.deep_view(),
        first is Err ==> first->Err_0.deep_view() == second->Err_0.deep_view(),
{
}

/// The level of a heading is the number of its hashes, and 6 where there are
/// more: always from 1 to 6.
pub proof fn law_heading_level(s: Seq<char>, i: int)
    requires
        heading_at(s, i) is Some,
    ensures
        ({
            let count = run_end(s, i, s.len() as int, CharClass::Hash) - i;
            let level = heading_at(s, i)->Some_0.0.0;
            &&& count >= 1
            &&& level == (if count <= 6 {
                count
            } else {
                6
            })
            &&& 1 <= level <= 6
        }),
{
}

/// Text that starts with `---` is never read as a paragraph; with a line
/// ending after the three dashes it is a horizontal rule.
pub proof fn law_rule_before_paragraph(s: Seq<char>, i: int)
    requires
        starts_with_at(s, i, "---"@),
    ensures
        !(content_block_at(s, i) matches Parsed::Done { value: BlockModel::Paragraph(_), .. }),
        line_ending_at(s, i + "---"@.len()) matches Some(next) ==> content_block_at(s, i) == (
        Parsed::Done { value: BlockModel::HorizontalRule, next }),
{
    reveal_strlit("---");
    reveal_strlit("```");
    assert(s.subrange(i, i + 3)[0] == '-');
    assert(s.subrange(i, i + 3)[1] == '-');
    assert(!starts_with_at(s, i, "```"@));
}

/// The block that the grammar finds at a position is one that it produces.
pub proof fn lemma_block_is_produced(s: Seq<char>, i: int)
    ensures
        content_block_at(s, i) matches Parsed::Done { value, .. } ==> produced_block(value),
{
}

/// The blocks that the grammar finds from a position on are such as it
/// produces.
pub proof fn lemma_blocks_are_produced(s: Seq<char>, i: int)
    ensures
        blocks_from(s, i) matches Parsed::Done { value, .. } ==> produced_blocks(value),
    decreases s.len() - i,
{
    if let Parsed::Done { value, next } = content_block_at(s, i) {
        let p = blank_end(s, next);
        if advances(s, i, p) {
            lemma_block_is_produced(s, i);
            lemma_blocks_are_produced(s, p);
            if let Parsed::Done { value: rest, .. } = blocks_from(s, p) {
                let all = seq![value] + rest;
                assert forall|k: int| 0 <= k < all.len() implies produced_block(
                    #[trigger] all[k],
                ) by {
                    if k > 0 {
                        assert(all[k] == rest[k - 1]);
                    }
                }
            }
        }
    }
}

/// The section that the grammar finds at a position is sound.
pub proof fn lemma_section_is_sound(s: Seq<char>, i: int)
    ensures
        section_at(s, i) matches Parsed::Done { value, .. } ==> sound_section(value),
{
    if let Some((_, n)) = heading_at(s, i) {
        lemma_blocks_are_produced(s, blank_end(s, n));
    }
}

/// The sections that the grammar finds from a position on are sound.
pub proof fn lemma_sections_are_sound(s: Seq<char>, i: int)
    ensures
        sections_from(s, i) matches Parsed::Done { value, .. } ==> forall|j: int|
            0 <= j < value.len() ==> sound_section(#[trigger] value[j]),
    decreases s.len() - i,
{
    if let Parsed::Done { value, next } = section_at(s, i) {
        if advances(s, i, next) {
            lemma_section_is_sound(s, i);
            lemma_sections_are_sound(s, next);
            if let Parsed::Done { value: rest, .. } = sections_from(s, next) {
                let all = seq![value] + rest;
                assert forall|j: int| 0 <= j < all.len() implies sound_section(
                    #[trigger] all[j],
                ) by {
                    if j > 0 {
                        assert(all[j] == rest[j - 1]);
                    }
                }
            }
        }
    }
}

/// Every section of a parsed document is sound: its level is from 1 to 6,
/// its blocks are such as the grammar produces, and its attestations are
/// those of its own blocks.
pub proof fn law_sections_are_sound(s: Seq<char>)
    ensures
        document_of(s) matches Ok(doc) ==> sound_document(doc),
{
    let at_abstract = blank_end(s, 0);
    let past_abstract = position_after(abstract_at(s, at_abstract), at_abstract);
    let at_requires = blank_end(s, past_abstract);
    let past_requires = position_after(requires_at(s, at_requires), at_requires);
    lemma_sections_are_sound(s, blank_end(s, past_requires));
}

/// No paragraph of a parsed document is empty, whatever blank lines stand
/// between its blocks, and no block of it is a table.
pub proof fn law_no_empty_paragraph(s: Seq<char>)
    ensures
        document_of(s) matches Ok(doc) ==> forall|j: int, k: int|
            0 <= j < doc.sections.len() && 0 <= k < doc.sections[j].content.len() ==> {
                &&& #[trigger] doc.sections[j].content[k] matches BlockModel::Paragraph(text)
                    ==> text.len() > 0
                &&& !(doc.sections[j].content[k] is Table)
            },
{
    law_sections_are_sound(s);
    if let Ok(doc) = document_of(s) {
        assert forall|j: int, k: int|
            0 <= j < doc.sections.len() && 0 <= k < doc.sections[j].content.len() implies {
            &&& #[trigger] doc.sections[j].content[k] matches BlockModel::Paragraph(text)
                ==> text.len() > 0
            &&& !(doc.sections[j].content[k] is Table)
        } by {
            assert(sound_section(doc.sections[j]));
            assert(produced_block(doc.sections[j].content[k]));
        }
    }
}

/// The strength of an attestation is one of `MUST`, `SHOULD` and `COULD`,
/// and it is `MUST` where the body starts with none of `*Must*`, `*Should*`
/// and `*Could*`.
pub proof fn law_attestation_default(body: Seq<char>)
    ensures
        strength_of(body) == "MUST"@ || strength_of(body) == "SHOULD"@ || strength_of(body)
            == "COULD"@,
        !starts_with_at(body, 0, "*Must*"@) && !starts_with_at(body, 0, "*Should*"@)
            && !starts_with_at(body, 0, "*Could*"@) ==> strength_of(body) == "MUST"@,
{
}

/// A paragraph holds an attestation exactly where it holds `Attestation:`;
/// the claim is then the paragraph's first line, the strength that of what
/// follows the first `Attestation:`, and the reference is missing.
pub proof fn law_attestation_of_paragraph(text: Seq<char>)
    ensures
        attestation_of(text) is Some <==> contains(text, "Attestation:"@),
        attestation_of(text) matches Some(a) ==> a.claim == first_line(text)
            && a.reference is None && a.requirement == strength_of(
            trim(
                text.subrange(
                    find_from(text, 0, "Attestation:"@)->Some_0 + "Attestation:"@.len(),
                    text.len() as int,
                ),
            ),
        ),
{
    lemma_contains(text, "Attestation:"@);
}

/// Whether the abstract directive opens at `p` and closes somewhere after.
pub open spec fn abstract_closes(s: Seq<char>, p: int) -> bool {
    starts_with_at(s, p, "@abstract:"@) && exists|e: int|
        p + "@abstract:"@.len() <= e && #[trigger] starts_with_at(s, e, "@end"@)
}

/// The abstract directive matches exactly where it opens and closes; where
/// it opens and does not close it is broken.
pub proof fn lemma_abstract_closes(s: Seq<char>, p: int)
    ensures
        abstract_at(s, p) is Done <==> abstract_closes(s, p),
        abstract_at(s, p) is Broken <==> starts_with_at(s, p, "@abstract:"@) && !abstract_closes(
            s,
            p,
        ),
        abstract_at(s, p) matches Parsed::Broken { at } ==> at == p,
{
    reveal_strlit("@abstract:");
    reveal_strlit("@end");
    if starts_with_at(s, p, "@abstract:"@) {
        let from = p + "@abstract:"@.len();
        let b = blank_end(s, from);
        lemma_run_end(s, from, s.len() as int, CharClass::Blank);
        lemma_find_from(s, b, "@end"@);
        if abstract_closes(s, p) {
            let e = choose|e: int| from <= e && #[trigger] starts_with_at(s, e, "@end"@);
            assert(s.subrange(e, e + 4)[0] == '@');
        }
    }
}

/// A parsed document has an abstract exactly where the text, after the
/// blanks at its start, holds `@abstract:` and somewhere after it `@end`.
pub proof fn law_abstract_iff_block(s: Seq<char>)
    ensures
        document_of(s) matches Ok(doc) ==> (doc.abstract_text is Some <==> abstract_closes(
            s,
            blank_end(s, 0),
        )),
{
    lemma_abstract_closes(s, blank_end(s, 0));
}

/// A text whose abstract opens and never closes is no document: parsing it
/// gives the error that quotes the text from `@abstract:` on.
pub proof fn law_unclosed_abstract_fails(s: Seq<char>, r: Result<A2mlDocument, PolicyError>)
    requires
        starts_with_at(s, blank_end(s, 0), "@abstract:"@),
        !abstract_closes(s, blank_end(s, 0)),
        is_parse_of(r, s),
    ensures
        document_of(s) == Err::<DocumentModel, int>(blank_end(s, 0)),
        r is Err,
        r->Err_0.deep_view() == ErrorModel::ParseError(parse_error_message(s, blank_end(s, 0))),
{
    lemma_abstract_closes(s, blank_end(s, 0));
}

/// Whether a directive or a code fence opens at `at`.
pub open spec fn opens_at(s: Seq<char>, at: int) -> bool {
    ||| starts_with_at(s, at, "@abstract:"@)
    ||| starts_with_at(s, at, "@requires:"@)
    ||| starts_with_at(s, at, "@refs:"@)
    ||| starts_with_at(s, at, "```"@)
}

/// Where the blocks from a position on are broken, a code fence opens at
/// the place that is reported.
pub proof fn lemma_broken_blocks(s: Seq<char>, i: int)
    ensures
        !(blocks_from(s, i) is Absent),
        blocks_from(s, i) matches Parsed::Broken { at } ==> starts_with_at(s, at, "```"@),
    decreases s.len() - i,
{
    if let Parsed::Done { value, next } = content_block_at(s, i) {
        let p = blank_end(s, next);
        if advances(s, i, p) {
            lemma_broken_blocks(s, p);
        }
    }
}

/// Where the sections from a position on are broken, a code fence opens at
/// the place that is reported.
pub proof fn lemma_broken_sections(s: Seq<char>, i: int)
    ensures
        !(sections_from(s, i) is Absent),
        sections_from(s, i) matches Parsed::Broken { at } ==> starts_with_at(s, at, "```"@),
    decreases s.len() - i,
{
    if let Some((_, n)) = heading_at(s, i) {
        lemma_broken_blocks(s, blank_end(s, n));
    }
    if let Parsed::Done { value, next } = section_at(s, i) {
        if advances(s, i, next) {
            lemma_broken_sections(s, next);
        }
    }
}

/// A text is malformed only where a directive or a code fence opens and
/// does not close properly: the position that is reported is that of
/// `@abstract:`, `@requires:`, `@refs:` or three backticks.
pub proof fn law_error_points_at_opening(s: Seq<char>)
    ensures
        document_of(s) matches Err(at) ==> opens_at(s, at),
{
    let at_abstract = blank_end(s, 0);
    let past_abstract = position_after(abstract_at(s, at_abstract), at_abstract);
    let at_requires = blank_end(s, past_abstract);
    let past_requires = position_after(requires_at(s, at_requires), at_requires);
    lemma_broken_sections(s, blank_end(s, past_requires));
}

/// The items of a list stand in the order of the text: the item at the
/// start is the first, and the items after it follow.
pub proof fn law_items_keep_order(s: Seq<char>, i: int, spaced: bool)
    requires
        0 <= i <= s.len(),
        dash_item_at(s, i, spaced) is Some,
    ensures
        dash_items_from(s, i, spaced).0 == seq![dash_item_at(s, i, spaced)->Some_0.0]
            + dash_items_from(s, dash_item_at(s, i, spaced)->Some_0.1, spaced).0,
        dash_items_from(s, i, spaced).0[0] == dash_item_at(s, i, spaced)->Some_0.0,
{
    lemma_run_end(s, i + 1, s.len() as int, CharClass::Inline);
    let j = run_end(s, i + 1, s.len() as int, CharClass::Inline);
    lemma_run_end(s, j, s.len() as int, CharClass::LineText);
}

/// Where the text of a reference holds `http://` or `https://`, the link
/// runs from the first `http` up to the next whitespace or `)`, or to the
/// end, and the description is what stands before the link, trimmed.
/// Otherwise the whole text is the description and there is no link.
pub proof fn law_link_splits_reference(id: Seq<char>, text: Seq<char>)
    ensures
        reference_of(id, text).id == id,
        !contains(text, "http://"@) && !contains(text, "https://"@) ==> reference_of(id, text).text
            == text && reference_of(id, text).url is None,
        contains(text, "http://"@) || contains(text, "https://"@) ==> ({
            let start = find_from(text, 0, "http"@);
            let end = run_end(text, start->Some_0, text.len() as int, CharClass::UrlText);
            &&& start is Some
            &&& reference_of(id, text).text == trim(text.subrange(0, start->Some_0))
            &&& reference_of(id, text).url == Some(text.subrange(start->Some_0, end))
        }),
{
    reveal_strlit("http://");
    reveal_strlit("https://");
    reveal_strlit("http");
    lemma_find_from(text, 0, "http"@);
    lemma_find_from(text, 0, "http://"@);
    lemma_find_from(text, 0, "https://"@);
    lemma_contains(text, "http://"@);
    lemma_contains(text, "https://"@);
    if contains(text, "http://"@) {
        let k = find_from(text, 0, "http://"@)->Some_0;
        assert(text.subrange(k, k + 4) =~= text.subrange(k, k + 7).subrange(0, 4));
        assert("http://"@.subrange(0, 4) =~= "http"@);
        assert(starts_with_at(text, k, "http"@));
    }
    if contains(text, "https://"@) {
        let k = find_from(text, 0, "https://"@)->Some_0;
        assert(text.subrange(k, k + 4) =~= text.subrange(k, k + 8).subrange(0, 4));
        assert("https://"@.subrange(0, 4) =~= "http"@);
        assert(starts_with_at(text, k, "http"@));
    }
}

/// The sections from a position on end at a position of the text.
pub proof fn lemma_sections_end(s: Seq<char>, i: int)
    requires
        0 <= i <= s.len(),
    ensures
        sections_from(s, i) matches Parsed::Done { next, .. } ==> i <= next <= s.len(),
    decreases s.len() - i,
{
    if let Parsed::Done { value, next } = section_at(s, i) {
        if advances(s, i, next) {
            lemma_sections_end(s, next);
        }
    }
}

/// A rule that ends with `@end` and the blanks after it ends at a position
/// of the text.
pub proof fn lemma_closing_end(s: Seq<char>, e: int)
    requires
        starts_with_at(s, e, "@end"@),
    ensures
        0 <= blank_end(s, e + "@end"@.len()) <= s.len(),
{
    lemma_run_end(s, e + "@end"@.len(), s.len() as int, CharClass::Blank);
}

/// A directive that matches ends at a position of the text.
pub proof fn lemma_directives_end(s: Seq<char>, i: int)
    ensures
        abstract_at(s, i) matches Parsed::Done { next, .. } ==> 0 <= next <= s.len(),
        requires_at(s, i) matches Parsed::Done { next, .. } ==> 0 <= next <= s.len(),
        refs_at(s, i) matches Parsed::Done { next, .. } ==> 0 <= next <= s.len(),
{
    if abstract_at(s, i) is Done {
        let from = blank_end(s, i + "@abstract:"@.len());
        lemma_find_from(s, from, "@end"@);
        lemma_closing_end(s, find_from(s, from, "@end"@)->Some_0);
    }
    if requires_at(s, i) is Done {
        lemma_closing_end(s, dash_items_from(s, blank_end(s, i + "@requires:"@.len()), false).1);
    }
    if refs_at(s, i) is Done {
        lemma_closing_end(s, references_from(s, blank_end(s, i + "@refs:"@.len())).1);
    }
}

/// The blanks after a position of the text end at a position of the text.
pub proof fn lemma_blanks_end(s: Seq<char>, i: int)
    requires
        0 <= i <= s.len(),
    ensures
        i <= blank_end(s, i) <= s.len(),
{
    lemma_run_end(s, i, s.len() as int, CharClass::Blank);
}

/// What a document keeps as `raw` is the end of the text: the part that no
/// rule consumed.
pub proof fn law_raw_is_tail(s: Seq<char>)
    ensures
        document_of(s) matches Ok(doc) ==> doc.raw.len() <= s.len() && doc.raw == s.subrange(
            s.len() - doc.raw.len(),
            s.len() as int,
        ),
{
    let at_abstract = blank_end(s, 0);
    lemma_blanks_end(s, 0);
    lemma_directives_end(s, at_abstract);
    let past_abstract = position_after(abstract_at(s, at_abstract), at_abstract);
    let at_requires = blank_end(s, past_abstract);
    lemma_blanks_end(s, past_abstract);
    lemma_directives_end(s, at_requires);
    let past_requires = position_after(requires_at(s, at_requires), at_requires);
    let at_sections = blank_end(s, past_requires);
    lemma_blanks_end(s, past_requires);
    lemma_sections_end(s, at_sections);
    let past_sections = position_after(sections_from(s, at_sections), at_sections);
    let at_refs = blank_end(s, past_sections);
    lemma_blanks_end(s, past_sections);
    lemma_directives_end(s, at_refs);
    let past_refs = position_after(refs_at(s, at_refs), at_refs);
    lemma_blanks_end(s, past_refs);
}

/// A list that matches holds at least one item: a directive or a bullet
/// list without items is none.
pub proof fn law_lists_are_not_empty(s: Seq<char>, i: int)
    ensures
        requires_at(s, i) matches Parsed::Done { value, .. } ==> value.len() >= 1,
        refs_at(s, i) matches Parsed::Done { value, .. } ==> value.len() >= 1,
        bullet_list_at(s, i) matches Some((items, _)) ==> items.len() >= 1,
{
}

} // verus!
