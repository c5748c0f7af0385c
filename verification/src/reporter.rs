//! Grievance letters and reports, as text.

use crate::chars::string_from_chars;
use crate::error::{ErrorModel, PolicyError};
use crate::json::{
    distinct_names, fields_of, items_of, json_bool, json_error_text, json_list, json_null,
    json_object, json_of, json_pretty, json_text, object_of, pretty_text, Json,
};
use crate::text::to_chars;
use crate::validator::{
    kind_name, ClauseCheck, ClauseEntry, ErrorEntry, ReportModel, ValidationError,
    ValidationReport, ValidationWarning, WarningEntry,
};
use vstd::prelude::*;
use vstd::string::StringExecFns;

verus! {

/// The messages of the errors, each after two spaces and a dash, with a line
/// feed between each two.
pub open spec fn bulleted(errors: Seq<ErrorEntry>) -> Seq<char>
    decreases errors.len(),
{
    if errors.len() == 0 {
        Seq::empty()
    } else if errors.len() == 1 {
        "  - "@ + errors[0].message
    } else {
        bulleted(errors.drop_last()) + "\n"@ + "  - "@ + errors.last().message
    }
}

/// The name of the union, or `N/A` where there is none.
pub open spec fn union_or_none(union: Option<Seq<char>>) -> Seq<char> {
    match union {
        Some(u) => u,
        None => "N/A"@,
    }
}

/// The letter about a violation that a report bears out.
pub open spec fn letter_of(union: Option<Seq<char>>, violation: Seq<char>, report: ReportModel)
    -> Seq<char> {
    "# GRIEVANCE LETTER\n\nViolation: "@ + violation + "\nUnion: "@ + union_or_none(union)
        + "\nContract: "@ + report.contract_path + "\nSchema: "@ + report.schema_path
        + "\n\nErrors found:\n"@ + bulleted(report.errors) + "\n"@
}

/// Writes grievance letters.
pub struct GrievanceGenerator {
    union: Option<String>,
    template: Option<String>,
}

impl GrievanceGenerator {
    /// The union in whose name the letters are written.
    pub closed spec fn union(&self) -> Option<Seq<char>> {
        self.union.deep_view()
    }

    /// The text of the template.
    pub closed spec fn template(&self) -> Option<Seq<char>> {
        self.template.deep_view()
    }

    /// A generator for `union` with the text of a template, where there is
    /// one.
    pub fn new(union: Option<String>, template: Option<String>) -> (r: Self)
        ensures
            r.union() == union.deep_view(),
            r.template() == template.deep_view(),
    {
        Self { union, template }
    }

    /// The letter about `violation`. Without a template there is none.
    pub fn generate(&self, violation: &str, validation_report: &ValidationReport) -> (r: Result<
        String,
        PolicyError,
    >)
        ensures
            match self.template() {
                Some(_) => r is Ok && r->Ok_0@ == letter_of(
                    self.union(),
                    violation@,
                    validation_report@,
                ),
                None => r is Err && r->Err_0.deep_view() == ErrorModel::TemplateError(
                    "No template provided"@,
                ),
            },
    {
        if self.template.is_none() {
            return Err(PolicyError::TemplateError(String::from_str("No template provided")));
        }
        let mut letter = String::from_str("# GRIEVANCE LETTER\n\nViolation: ");
        letter.append(violation);
        letter.append("\nUnion: ");
        match &self.union {
            Some(u) => letter.append(u.as_str()),
            None => letter.append("N/A"),
        }
        letter.append("\nContract: ");
        letter.append(validation_report.contract_path.as_str());
        letter.append("\nSchema: ");
        letter.append(validation_report.schema_path.as_str());
        letter.append("\n\nErrors found:\n");
        let found = validation_report.errors.as_slice();
        let errors = self.format_errors(found);
        letter.append(errors.as_str());
        letter.append("\n");
        Ok(letter)
    }

    fn format_errors(&self, errors: &[ValidationError]) -> (r: String)
        ensures
            r@ == bulleted(errors.deep_view()),
    {
        let mut lines = String::new();
        let mut k: usize = 0;
        while k < errors.len()
            invariant
                k <= errors@.len(),
                lines@ == bulleted(errors.deep_view().subrange(0, k as int)),
            decreases errors@.len() - k,
        {
            proof {
                let longer = errors.deep_view().subrange(0, k + 1);
                assert(longer.drop_last() =~= errors.deep_view().subrange(0, k as int));
            }
            if k > 0 {
                lines.append("\n");
            }
            lines.append("  - ");
            lines.append(errors[k].message.as_str());
            k = k + 1;
        }
        proof {
            assert(errors.deep_view().subrange(0, errors@.len() as int) =~= errors.deep_view());
        }
        lines
    }
}

/// The lines of one error in a Markdown report.
pub open spec fn error_item(e: ErrorEntry) -> Seq<char> {
    "- **"@ + kind_name(e.kind) + "**: "@ + e.message + "\n"@ + match e.location {
        Some(place) => "  - Location: "@ + place + "\n"@,
        None => Seq::empty(),
    }
}

/// The lines of the errors, in their order.
pub open spec fn error_items(errors: Seq<ErrorEntry>) -> Seq<char>
    decreases errors.len(),
{
    if errors.len() == 0 {
        Seq::empty()
    } else {
        error_items(errors.drop_last()) + error_item(errors.last())
    }
}

/// The line of one warning in a Markdown report.
pub open spec fn warning_item(w: WarningEntry) -> Seq<char> {
    "- "@ + w.message + "\n"@
}

/// The lines of the warnings, in their order.
pub open spec fn warning_items(warnings: Seq<WarningEntry>) -> Seq<char>
    decreases warnings.len(),
{
    if warnings.len() == 0 {
        Seq::empty()
    } else {
        warning_items(warnings.drop_last()) + warning_item(warnings.last())
    }
}

/// The table row of one clause in a Markdown report.
pub open spec fn clause_row(c: ClauseEntry) -> Seq<char> {
    "| "@ + c.clause + " | "@ + (if c.present {
        "✓"@
    } else {
        "✗"@
    }) + " | "@ + (match c.value {
        Some(v) => v,
        None => "N/A"@,
    }) + " |\n"@
}

/// The table rows of the clauses, in their order.
pub open spec fn clause_rows(clauses: Seq<ClauseEntry>) -> Seq<char>
    decreases clauses.len(),
{
    if clauses.len() == 0 {
        Seq::empty()
    } else {
        clause_rows(clauses.drop_last()) + clause_row(clauses.last())
    }
}

/// The head of a Markdown report: title, paths and verdict.
pub open spec fn markdown_head(r: ReportModel) -> Seq<char> {
    "# Validation Report\n\n"@ + "**Contract:** `"@ + r.contract_path + "`\n"@ + "**Schema:** `"@
        + r.schema_path + "`\n\n"@ + (if r.valid {
        "## ✅ VALID\n\n"@
    } else {
        "## ❌ INVALID\n\n"@
    })
}

/// The part of a Markdown report on the errors; empty where there are none.
pub open spec fn markdown_errors(r: ReportModel) -> Seq<char> {
    if r.errors.len() > 0 {
        "### Errors\n\n"@ + error_items(r.errors) + "\n"@
    } else {
        Seq::empty()
    }
}

/// The part of a Markdown report on the warnings; empty where there are none.
pub open spec fn markdown_warnings(r: ReportModel) -> Seq<char> {
    if r.warnings.len() > 0 {
        "### Warnings\n\n"@ + warning_items(r.warnings) + "\n"@
    } else {
        Seq::empty()
    }
}

/// The part of a Markdown report on the required clauses; empty where there
/// are none.
pub open spec fn markdown_clauses(r: ReportModel) -> Seq<char> {
    if r.required_clauses.len() > 0 {
        "### Required Clauses\n\n"@ + "| Clause | Present | Value |\n"@
            + "|--------|---------|-------|\n"@ + clause_rows(r.required_clauses)
    } else {
        Seq::empty()
    }
}

/// A report in Markdown.
pub open spec fn markdown_of(r: ReportModel) -> Seq<char> {
    markdown_head(r) + markdown_errors(r) + markdown_warnings(r) + markdown_clauses(r)
}

/// What stands for a character in HTML text.
pub open spec fn escape_of(c: char) -> Seq<char> {
    if c == '&' {
        seq!['&', 'a', 'm', 'p', ';']
    } else if c == '<' {
        seq!['&', 'l', 't', ';']
    } else if c == '>' {
        seq!['&', 'g', 't', ';']
    } else if c == '"' {
        seq!['&', 'q', 'u', 'o', 't', ';']
    } else {
        seq![c]
    }
}

/// A text with each of `&`, `<`, `>` and `"` replaced by what stands for it
/// in HTML.
pub open spec fn escaped(s: Seq<char>) -> Seq<char>
    decreases s.len(),
{
    if s.len() == 0 {
        Seq::empty()
    } else {
        escaped(s.drop_last()) + escape_of(s.last())
    }
}

/// A report in HTML: the Markdown report, escaped, as preformatted text.
pub open spec fn html_of(r: ReportModel) -> Seq<char> {
    "<pre>"@ + escaped(markdown_of(r)) + "</pre>"@
}

/// The JSON value of a text that may be missing.
pub open spec fn optional_json(text: Option<Seq<char>>) -> Json {
    match text {
        Some(t) => Json::Text(t),
        None => Json::Null,
    }
}

/// The JSON value of one error.
pub open spec fn error_json(e: ErrorEntry) -> Json {
    Json::Object(
        object_of(
            seq![
                ("kind"@, Json::Text(kind_name(e.kind))),
                ("message"@, Json::Text(e.message)),
                ("location"@, optional_json(e.location)),
            ],
        ),
    )
}

/// The JSON value of one warning.
pub open spec fn warning_json(w: WarningEntry) -> Json {
    Json::Object(
        object_of(
            seq![("message"@, Json::Text(w.message)), ("location"@, optional_json(w.location))],
        ),
    )
}

/// The JSON value of what was found of one clause.
pub open spec fn clause_json(c: ClauseEntry) -> Json {
    Json::Object(
        object_of(
            seq![
                ("clause"@, Json::Text(c.clause)),
                ("present"@, Json::Bool(c.present)),
                ("value"@, optional_json(c.value)),
                ("expected"@, optional_json(c.expected)),
            ],
        ),
    )
}

/// The JSON value of a report.
pub open spec fn report_json(r: ReportModel) -> Json {
    Json::Object(
        object_of(
            seq![
                ("contract"@, Json::Text(r.contract_path)),
                ("schema"@, Json::Text(r.schema_path)),
                ("valid"@, Json::Bool(r.valid)),
                ("errors"@, Json::List(Seq::new(r.errors.len(), |i: int| error_json(r.errors[i])))),
                (
                    "warnings"@,
                    Json::List(Seq::new(r.warnings.len(), |i: int| warning_json(r.warnings[i]))),
                ),
                (
                    "required_clauses"@,
                    Json::List(
                        Seq::new(
                            r.required_clauses.len(),
                            |i: int| clause_json(r.required_clauses[i]),
                        ),
                    ),
                ),
            ],
        ),
    )
}

/// Whether `r` is what writing a report as JSON gives: the text that
/// `serde_json` writes for the report's value, or the error of `serde_json`.
pub open spec fn is_json_of(r: Result<String, PolicyError>, report: ReportModel) -> bool {
    match r {
        Ok(text) => text@ == pretty_text(report_json(report)),
        Err(e) => e.deep_view() is JsonError,
    }
}

/// Computes `escaped`.
pub fn html_escape(s: &str) -> (r: String)
    ensures
        r@ == escaped(s@),
{
    let input = to_chars(s);
    let mut out: Vec<char> = Vec::new();
    let mut k: usize = 0;
    while k < input.len()
        invariant
            k <= input@.len(),
            out@ == escaped(input@.subrange(0, k as int)),
        decreases input@.len() - k,
    {
        let c: char = input[k];
        proof {
            let longer = input@.subrange(0, k + 1);
            assert(longer.drop_last() =~= input@.subrange(0, k as int));
        }
        if c == '&' {
            out.push('&');
            out.push('a');
            out.push('m');
            out.push('p');
            out.push(';');
        } else if c == '<' {
            out.push('&');
            out.push('l');
            out.push('t');
            out.push(';');
        } else if c == '>' {
            out.push('&');
            out.push('g');
            out.push('t');
            out.push(';');
        } else if c == '"' {
            out.push('&');
            out.push('q');
            out.push('u');
            out.push('o');
            out.push('t');
            out.push(';');
        } else {
            out.push(c);
        }
        k = k + 1;
    }
    proof {
        assert(input@.subrange(0, input@.len() as int) =~= input@);
    }
    string_from_chars(out.as_slice())
}

/// Renders validation reports.
pub struct ReportRenderer;

impl ReportRenderer {
    /// The JSON value of a text that may be missing.
    fn optional_value(text: &Option<String>) -> (r: serde_json::Value)
        ensures
            json_of(r) == optional_json(text.deep_view()),
    {
        match text {
            Some(t) => json_text(t.clone()),
            None => json_null(),
        }
    }

    /// The JSON value of one error.
    fn error_value(e: &ValidationError) -> (r: serde_json::Value)
        ensures
            json_of(r) == error_json(e.deep_view()),
    {
        let fields = vec![
            (String::from_str("kind"), json_text(String::from_str(e.kind.name()))),
            (String::from_str("message"), json_text(e.message.clone())),
            (String::from_str("location"), Self::optional_value(&e.location)),
        ];
        proof {
            reveal_strlit("kind");
            reveal_strlit("message");
            reveal_strlit("location");
            let wanted = seq![
                ("kind"@, Json::Text(kind_name(e.kind))),
                ("message"@, Json::Text(e.message@)),
                ("location"@, optional_json(e.location.deep_view())),
            ];
            assert(fields_of(fields@) =~= wanted);
            assert forall|i: int, j: int| 0 <= i < j < wanted.len() implies wanted[i].0
                != wanted[j].0 by {
                assert(wanted[i].0.len() != wanted[j].0.len());
            }
        }
        json_object(fields)
    }

    /// The JSON value of one warning.
    fn warning_value(w: &ValidationWarning) -> (r: serde_json::Value)
        ensures
            json_of(r) == warning_json(w.deep_view()),
    {
        let fields = vec![
            (String::from_str("message"), json_text(w.message.clone())),
            (String::from_str("location"), Self::optional_value(&w.location)),
        ];
        proof {
            reveal_strlit("message");
            reveal_strlit("location");
            let wanted = seq![
                ("message"@, Json::Text(w.message@)),
                ("location"@, optional_json(w.location.deep_view())),
            ];
            assert(fields_of(fields@) =~= wanted);
            assert forall|i: int, j: int| 0 <= i < j < wanted.len() implies wanted[i].0
                != wanted[j].0 by {
                assert(wanted[i].0.len() != wanted[j].0.len());
            }
        }
        json_object(fields)
    }

    /// The JSON value of what was found of one clause.
    fn clause_value(c: &ClauseCheck) -> (r: serde_json::Value)
        ensures
            json_of(r) == clause_json(c.deep_view()),
    {
        let fields = vec![
            (String::from_str("clause"), json_text(c.clause.clone())),
            (String::from_str("present"), json_bool(c.present)),
            (String::from_str("value"), Self::optional_value(&c.value)),
            (String::from_str("expected"), Self::optional_value(&c.expected)),
        ];
        proof {
            reveal_strlit("clause");
            reveal_strlit("present");
            reveal_strlit("value");
            reveal_strlit("expected");
            let wanted = seq![
                ("clause"@, Json::Text(c.clause@)),
                ("present"@, Json::Bool(c.present)),
                ("value"@, optional_json(c.value.deep_view())),
                ("expected"@, optional_json(c.expected.deep_view())),
            ];
            assert(fields_of(fields@) =~= wanted);
            assert forall|i: int, j: int| 0 <= i < j < wanted.len() implies wanted[i].0
                != wanted[j].0 by {
                assert(wanted[i].0.len() != wanted[j].0.len());
            }
        }
        json_object(fields)
    }

    /// The JSON value of a report: what is handed to `serde_json` to write.
    pub fn report_value(report: &ValidationReport) -> (r: serde_json::Value)
        ensures
            json_of(r) == report_json(report@),
    {
        let mut errors: Vec<serde_json::Value> = Vec::new();
        let mut k: usize = 0;
        while k < report.errors.len()
            invariant
                k <= report.errors@.len(),
                items_of(errors@) == Seq::new(k as nat, |i: int| error_json(report@.errors[i])),
            decreases report.errors@.len() - k,
        {
            let ghost before = items_of(errors@);
            let v = Self::error_value(&report.errors[k]);
            errors.push(v);
            proof {
                assert(items_of(errors@) =~= before.push(json_of(v)));
                assert(items_of(errors@) =~= Seq::new(
                    (k + 1) as nat,
                    |i: int| error_json(report@.errors[i]),
                ));
            }
            k = k + 1;
        }
        let mut warnings: Vec<serde_json::Value> = Vec::new();
        let mut k: usize = 0;
        while k < report.warnings.len()
            invariant
                k <= report.warnings@.len(),
                items_of(warnings@) == Seq::new(
                    k as nat,
                    |i: int| warning_json(report@.warnings[i]),
                ),
            decreases report.warnings@.len() - k,
        {
            let ghost before = items_of(warnings@);
            let v = Self::warning_value(&report.warnings[k]);
            warnings.push(v);
            proof {
                assert(items_of(warnings@) =~= before.push(json_of(v)));
                assert(items_of(warnings@) =~= Seq::new(
                    (k + 1) as nat,
                    |i: int| warning_json(report@.warnings[i]),
                ));
            }
            k = k + 1;
        }
        let mut clauses: Vec<serde_json::Value> = Vec::new();
        let mut k: usize = 0;
        while k < report.required_clauses.len()
            invariant
                k <= report.required_clauses@.len(),
                items_of(clauses@) == Seq::new(
                    k as nat,
                    |i: int| clause_json(report@.required_clauses[i]),
                ),
            decreases report.required_clauses@.len() - k,
        {
            let ghost before = items_of(clauses@);
            let v = Self::clause_value(&report.required_clauses[k]);
            clauses.push(v);
            proof {
                assert(items_of(clauses@) =~= before.push(json_of(v)));
                assert(items_of(clauses@) =~= Seq::new(
                    (k + 1) as nat,
                    |i: int| clause_json(report@.required_clauses[i]),
                ));
            }
            k = k + 1;
        }
        let fields = vec![
            (String::from_str("contract"), json_text(report.contract_path.clone())),
            (String::from_str("schema"), json_text(report.schema_path.clone())),
            (String::from_str("valid"), json_bool(report.valid)),
            (String::from_str("errors"), json_list(errors)),
            (String::from_str("warnings"), json_list(warnings)),
            (String::from_str("required_clauses"), json_list(clauses)),
        ];
        proof {
            reveal_strlit("contract");
            reveal_strlit("schema");
            reveal_strlit("valid");
            reveal_strlit("errors");
            reveal_strlit("warnings");
            reveal_strlit("required_clauses");
            let r = report@;
            let wanted = seq![
                ("contract"@, Json::Text(r.contract_path)),
                ("schema"@, Json::Text(r.schema_path)),
                ("valid"@, Json::Bool(r.valid)),
                ("errors"@, Json::List(Seq::new(r.errors.len(), |i: int| error_json(r.errors[i])))),
                (
                    "warnings"@,
                    Json::List(Seq::new(r.warnings.len(), |i: int| warning_json(r.warnings[i]))),
                ),
                (
                    "required_clauses"@,
                    Json::List(
                        Seq::new(
                            r.required_clauses.len(),
                            |i: int| clause_json(r.required_clauses[i]),
                        ),
                    ),
                ),
            ];
            assert(fields_of(fields@) =~= wanted);
            assert forall|i: int, j: int| 0 <= i < j < wanted.len() implies wanted[i].0
                != wanted[j].0 by {
                assert(wanted[i].0.len() != wanted[j].0.len() || wanted[i].0[0] != wanted[j].0[0]);
            }
        }
        json_object(fields)
    }

    /// What `render_json` returns for what `serde_json` wrote: the text, or
    /// the message of the error.
    pub fn json_outcome(written: Result<String, serde_json::Error>) -> (r: Result<
        String,
        PolicyError,
    >)
        ensures
            match written {
                Ok(text) => r == Ok::<String, PolicyError>(text),
                Err(_) => r is Err && r->Err_0.deep_view() is JsonError,
            },
    {
        match written {
            Ok(text) => Ok(text),
            Err(e) => Err(PolicyError::JsonError(json_error_text(&e))),
        }
    }

    /// The report as JSON, indented.
    pub fn render_json(report: &ValidationReport) -> (r: Result<String, PolicyError>)
        ensures
            is_json_of(r, report@),
    {
        let value = Self::report_value(report);
        Self::json_outcome(json_pretty(&value))
    }

    /// The report in Markdown.
    pub fn render_markdown(report: &ValidationReport) -> (r: Result<String, PolicyError>)
        ensures
            r is Ok,
            r->Ok_0@ == markdown_of(report@),
    {
        let mut md = String::new();
        md.append("# Validation Report\n\n");
        md.append("**Contract:** `");
        md.append(report.contract_path.as_str());
        md.append("`\n");
        md.append("**Schema:** `");
        md.append(report.schema_path.as_str());
        md.append("`\n\n");
        if report.valid {
            md.append("## ✅ VALID\n\n");
        } else {
            md.append("## ❌ INVALID\n\n");
        }
        if report.errors.len() > 0 {
            let part = Self::errors_part(report.errors.as_slice());
            md.append(part.as_str());
        }
        if report.warnings.len() > 0 {
            let part = Self::warnings_part(report.warnings.as_slice());
            md.append(part.as_str());
        }
        if report.required_clauses.len() > 0 {
            let part = Self::clauses_part(report.required_clauses.as_slice());
            md.append(part.as_str());
        }
        Ok(md)
    }

    /// The report in HTML.
    pub fn render_html(report: &ValidationReport) -> (r: Result<String, PolicyError>)
        ensures
            r is Ok,
            r->Ok_0@ == html_of(report@),
    {
        match Self::render_markdown(report) {
            Ok(md) => {
                let mut html = String::from_str("<pre>");
                html.append(html_escape(md.as_str()).as_str());
                html.append("</pre>");
                Ok(html)
            },
            Err(e) => Err(e),
        }
    }

    fn error_line(e: &ValidationError) -> (r: String)
        ensures
            r@ == error_item(e.deep_view()),
    {
        let mut line = String::from_str("- **");
        line.append(e.kind.name());
        line.append("**: ");
        line.append(e.message.as_str());
        line.append("\n");
        if let Some(place) = &e.location {
            line.append("  - Location: ");
            line.append(place.as_str());
            line.append("\n");
        }
        line
    }

    fn errors_part(errors: &[ValidationError]) -> (r: String)
        ensures
            r@ == "### Errors\n\n"@ + error_items(errors.deep_view()) + "\n"@,
    {
        let mut items = String::new();
        let mut k: usize = 0;
        while k < errors.len()
            invariant
                k <= errors@.len(),
                items@ == error_items(errors.deep_view().subrange(0, k as int)),
            decreases errors@.len() - k,
        {
            proof {
                let longer = errors.deep_view().subrange(0, k + 1);
                assert(longer.drop_last() =~= errors.deep_view().subrange(0, k as int));
            }
            let line = Self::error_line(&errors[k]);
            items.append(line.as_str());
            k = k + 1;
        }
        proof {
            assert(errors.deep_view().subrange(0, errors@.len() as int) =~= errors.deep_view());
        }
        let mut part = String::from_str("### Errors\n\n");
        part.append(items.as_str());
        part.append("\n");
        part
    }

    fn warnings_part(warnings: &[ValidationWarning]) -> (r: String)
        ensures
            r@ == "### Warnings\n\n"@ + warning_items(warnings.deep_view()) + "\n"@,
    {
        let mut items = String::new();
        let mut k: usize = 0;
        while k < warnings.len()
            invariant
                k <= warnings@.len(),
                items@ == warning_items(warnings.deep_view().subrange(0, k as int)),
            decreases warnings@.len() - k,
        {
            proof {
                let longer = warnings.deep_view().subrange(0, k + 1);
                assert(longer.drop_last() =~= warnings.deep_view().subrange(0, k as int));
            }
            let mut line = String::from_str("- ");
            line.append(warnings[k].message.as_str());
            line.append("\n");
            items.append(line.as_str());
            k = k + 1;
        }
        proof {
            assert(warnings.deep_view().subrange(0, warnings@.len() as int)
                =~= warnings.deep_view());
        }
        let mut part = String::from_str("### Warnings\n\n");
        part.append(items.as_str());
        part.append("\n");
        part
    }

    fn clause_line(c: &ClauseCheck) -> (r: String)
        ensures
            r@ == clause_row(c.deep_view()),
    {
        let mut line = String::from_str("| ");
        line.append(c.clause.as_str());
        line.append(" | ");
        if c.present {
            line.append("✓");
        } else {
            line.append("✗");
        }
        line.append(" | ");
        match &c.value {
            Some(v) => line.append(v.as_str()),
            None => line.append("N/A"),
        }
        line.append(" |\n");
        line
    }

    fn clauses_part(clauses: &[ClauseCheck]) -> (r: String)
        ensures
            r@ == "### Required Clauses\n\n"@ + "| Clause | Present | Value |\n"@
                + "|--------|---------|-------|\n"@ + clause_rows(clauses.deep_view()),
    {
        let mut rows = String::new();
        let mut k: usize = 0;
        while k < clauses.len()
            invariant
                k <= clauses@.len(),
                rows@ == clause_rows(clauses.deep_view().subrange(0, k as int)),
            decreases clauses@.len() - k,
        {
            proof {
                let longer = clauses.deep_view().subrange(0, k + 1);
                assert(longer.drop_last() =~= clauses.deep_view().subrange(0, k as int));
            }
            let line = Self::clause_line(&clauses[k]);
            rows.append(line.as_str());
            k = k + 1;
        }
        proof {
            assert(clauses.deep_view().subrange(0, clauses@.len() as int) =~= clauses.deep_view());
        }
        let mut part = String::from_str("### Required Clauses\n\n");
        part.append("| Clause | Present | Value |\n");
        part.append("|--------|---------|-------|\n");
        part.append(rows.as_str());
        part
    }
}

} // verus!
