//! What the commands of a front end compute from documents and reports,
//! before anything is printed or written.

use crate::chars::{lowercase_of, string_from_chars, to_lowercase};
use crate::parser::{A2mlDocument, BlockModel, ContentBlock, DocumentModel, Section, SectionModel};
use crate::schemas::{required_of, Union};
use crate::text::{contains, holds_text};
use crate::validator::{heading_names, holds_clause};
use vstd::prelude::*;
use vstd::string::StringExecFns;

verus! {

/// Whether `k` is the first section whose heading names the clause.
pub open spec fn first_naming(sections: Seq<SectionModel>, clause: Seq<char>, k: int) -> bool {
    &&& 0 <= k < sections.len()
    &&& heading_names(sections[k].heading, clause)
    &&& forall|j: int| 0 <= j < k ==> !heading_names(#[trigger] sections[j].heading, clause)
}

/// The first section of `doc` whose heading names `clause`, whatever the
/// case of either.
pub fn find_clause(doc: &A2mlDocument, clause: &str) -> (r: Option<usize>)
    ensures
        match r {
            Some(k) => first_naming(doc@.sections, clause@, k as int),
            None => !holds_clause(doc@.sections, clause@),
        },
{
    let wanted = to_lowercase(clause);
    let mut k: usize = 0;
    while k < doc.sections.len()
        invariant
            k <= doc.sections@.len(),
            wanted@ == lowercase_of(clause@),
            forall|j: int|
                0 <= j < k ==> !heading_names(#[trigger] doc@.sections[j].heading, clause@),
        decreases doc.sections@.len() - k,
    {
        let heading = to_lowercase(doc.sections[k].heading.as_str());
        if holds_text(heading.as_str(), wanted.as_str()) {
            return Some(k);
        }
        k = k + 1;
    }
    None
}

/// The lines that show one block: a paragraph's text, or a list's items,
/// each after a dash and a space. Other blocks show nothing.
pub open spec fn block_lines(block: BlockModel) -> Seq<Seq<char>> {
    match block {
        BlockModel::Paragraph(text) => seq![text],
        BlockModel::BulletList(items) => Seq::new(items.len(), |i: int| "- "@ + items[i]),
        _ => Seq::empty(),
    }
}

/// The lines that show the blocks, in their order.
pub open spec fn content_lines(blocks: Seq<BlockModel>) -> Seq<Seq<char>>
    decreases blocks.len(),
{
    if blocks.len() == 0 {
        Seq::empty()
    } else {
        content_lines(blocks.drop_last()) + block_lines(blocks.last())
    }
}

/// The lines that show the content of a section.
pub fn clause_lines(section: &Section) -> (r: Vec<String>)
    ensures
        r.deep_view() == content_lines(section@.content),
{
    let mut lines: Vec<String> = Vec::new();
    let mut k: usize = 0;
    while k < section.content.len()
        invariant
            k <= section.content@.len(),
            lines.deep_view() == content_lines(section@.content.subrange(0, k as int)),
        decreases section.content@.len() - k,
    {
        let ghost before = lines.deep_view();
        proof {
            let longer = section@.content.subrange(0, k + 1);
            assert(longer.drop_last() =~= section@.content.subrange(0, k as int));
        }
        match &section.content[k] {
            ContentBlock::Paragraph(text) => {
                lines.push(text.clone());
            },
            ContentBlock::BulletList(items) => {
                let mut i: usize = 0;
                while i < items.len()
                    invariant
                        i <= items@.len(),
                        lines.deep_view() == before + Seq::new(
                            i as nat,
                            |j: int| "- "@ + items@[j]@,
                        ),
                    decreases items@.len() - i,
                {
                    let ghost so_far = lines.deep_view();
                    let mut line = String::from_str("- ");
                    line.append(items[i].as_str());
                    lines.push(line);
                    proof {
                        assert(lines.deep_view() =~= so_far.push("- "@ + items@[i as int]@));
                    }
                    i = i + 1;
                }
            },
            _ => {},
        }
        k = k + 1;
    }
    proof {
        assert(section@.content.subrange(0, section.content@.len() as int) =~= section@.content);
    }
    lines
}

/// Whether `pattern` occurs in `text`; where `fold` is set, in their
/// lower-case forms.
pub open spec fn flag_occurs(text: Seq<char>, pattern: Seq<char>, fold: bool) -> bool {
    if fold {
        contains(lowercase_of(text), lowercase_of(pattern))
    } else {
        contains(text, pattern)
    }
}

/// Those of the patterns that occur in `text`, in their order.
pub open spec fn flags_in(text: Seq<char>, patterns: Seq<Seq<char>>, fold: bool) -> Seq<Seq<char>>
    decreases patterns.len(),
{
    if patterns.len() == 0 {
        Seq::empty()
    } else {
        let before = flags_in(text, patterns.drop_last(), fold);
        if flag_occurs(text, patterns.last(), fold) {
            before.push(patterns.last())
        } else {
            before
        }
    }
}

/// Those of the patterns that occur in `text`, in their order; where
/// `case_insensitive` is set, whatever the case of either.
pub fn scan_red_flags(text: &str, patterns: &[String], case_insensitive: bool) -> (r: Vec<String>)
    ensures
        r.deep_view() == flags_in(text@, patterns.deep_view(), case_insensitive),
{
    let searched = if case_insensitive {
        to_lowercase(text)
    } else {
        String::from_str(text)
    };
    let mut found: Vec<String> = Vec::new();
    let mut k: usize = 0;
    while k < patterns.len()
        invariant
            k <= patterns@.len(),
            searched@ == (if case_insensitive {
                lowercase_of(text@)
            } else {
                text@
            }),
            found.deep_view() == flags_in(
                text@,
                patterns.deep_view().subrange(0, k as int),
                case_insensitive,
            ),
        decreases patterns@.len() - k,
    {
        proof {
            let longer = patterns.deep_view().subrange(0, k + 1);
            assert(longer.drop_last() =~= patterns.deep_view().subrange(0, k as int));
        }
        let wanted = if case_insensitive {
            to_lowercase(patterns[k].as_str())
        } else {
            patterns[k].clone()
        };
        if holds_text(searched.as_str(), wanted.as_str()) {
            found.push(patterns[k].clone());
        }
        k = k + 1;
    }
    proof {
        assert(patterns.deep_view().subrange(0, patterns@.len() as int) =~= patterns.deep_view());
    }
    found
}

/// The heading line of a section in an outline: one hash more than its
/// level, a space, the heading, and an empty line.
pub open spec fn outline_item(section: SectionModel) -> Seq<char> {
    Seq::new((section.level + 1) as nat, |i: int| '#') + " "@ + section.heading + "\n\n"@
}

/// The heading lines of the sections, in their order.
pub open spec fn outline_items(sections: Seq<SectionModel>) -> Seq<char>
    decreases sections.len(),
{
    if sections.len() == 0 {
        Seq::empty()
    } else {
        outline_items(sections.drop_last()) + outline_item(sections.last())
    }
}

/// The outline of a document in Markdown: its abstract under a heading of
/// its own, where it has one, and the heading of each section.
pub open spec fn outline_of(doc: DocumentModel) -> Seq<char> {
    (match doc.abstract_text {
        Some(text) => "## Abstract\n\n"@ + text + "\n\n"@,
        None => Seq::empty(),
    }) + outline_items(doc.sections)
}

/// The outline of `doc` in Markdown.
pub fn render_outline(doc: &A2mlDocument) -> (r: String)
    ensures
        r@ == outline_of(doc@),
{
    let mut md = String::new();
    if let Some(text) = &doc.abstract_text {
        md.append("## Abstract\n\n");
        md.append(text.as_str());
        md.append("\n\n");
    }
    let ghost head = md@;
    let mut k: usize = 0;
    while k < doc.sections.len()
        invariant
            k <= doc.sections@.len(),
            md@ == head + outline_items(doc@.sections.subrange(0, k as int)),
        decreases doc.sections@.len() - k,
    {
        proof {
            let longer = doc@.sections.subrange(0, k + 1);
            assert(longer.drop_last() =~= doc@.sections.subrange(0, k as int));
        }
        let mut hashes: Vec<char> = Vec::new();
        let level: u8 = doc.sections[k].level;
        let mut n: u8 = 0;
        hashes.push('#');
        while n < level
            invariant
                n <= level,
                hashes@ == Seq::new((n + 1) as nat, |i: int| '#'),
            decreases level - n,
        {
            hashes.push('#');
            n = n + 1;
        }
        let marks = string_from_chars(hashes.as_slice());
        md.append(marks.as_str());
        md.append(" ");
        md.append(doc.sections[k].heading.as_str());
        md.append("\n\n");
        k = k + 1;
    }
    proof {
        assert(doc@.sections.subrange(0, doc.sections@.len() as int) =~= doc@.sections);
    }
    md
}

/// The clauses to check: those that were given, and after them those that
/// the union requires, where one is named.
pub open spec fn clauses_for(given: Seq<Seq<char>>, union: Option<Union>) -> Seq<Seq<char>> {
    match union {
        Some(u) => given + required_of(u),
        None => given,
    }
}

/// The clauses to check for a contract.
pub fn required_clauses_for(given: Vec<String>, union: Option<Union>) -> (r: Vec<String>)
    ensures
        r.deep_view() == clauses_for(given.deep_view(), union),
{
    let mut all = given;
    if let Some(u) = union {
        let ghost start = all.deep_view();
        let more = u.required_clauses();
        let mut k: usize = 0;
        while k < more.len()
            invariant
                k <= more@.len(),
                more.deep_view() == required_of(u),
                all.deep_view() == start + more.deep_view().subrange(0, k as int),
            decreases more@.len() - k,
        {
            let ghost before = all.deep_view();
            all.push(String::from_str(more[k]));
            proof {
                assert(all.deep_view() =~= before.push(more@[k as int]@));
            }
            k = k + 1;
        }
    }
    all
}

} // verus!
