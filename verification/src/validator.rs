//! Validation of a contract against the clauses that are asked of it.

use crate::chars::lowercase_of;
use crate::commands::find_clause;
use crate::parser::{A2mlDocument, DocumentModel, SectionModel};
use crate::text::contains;
use vstd::prelude::*;
use vstd::string::StringExecFns;

verus! {

/// How far a validation goes.
#[derive(Debug, Clone, Copy, PartialEq, Eq, Structural)]
pub enum ValidationMode {
    /// The syntax only.
    Lax,
    /// The structure too: the parts that a contract must have.
    Checked,
    /// The structure and the attestations.
    Attested,
}

/// The kinds of errors that a validation reports.
#[derive(Debug, Clone, Copy, PartialEq, Eq, Structural)]
pub enum ErrorKind {
    MissingClause,
    InvalidValue,
    UnresolvedReference,
    StructureError,
    AttestationFailure,
}

/// The name of an error kind.
pub open spec fn kind_name(kind: ErrorKind) -> Seq<char> {
    match kind {
        ErrorKind::MissingClause => "MissingClause"@,
        ErrorKind::InvalidValue => "InvalidValue"@,
        ErrorKind::UnresolvedReference => "UnresolvedReference"@,
        ErrorKind::StructureError => "StructureError"@,
        ErrorKind::AttestationFailure => "AttestationFailure"@,
    }
}

impl ErrorKind {
    /// The kind's name, as it is written in reports.
    pub fn name(&self) -> (r: &'static str)
        ensures
            r@ == kind_name(*self),
    {
        match self {
            ErrorKind::MissingClause => "MissingClause",
            ErrorKind::InvalidValue => "InvalidValue",
            ErrorKind::UnresolvedReference => "UnresolvedReference",
            ErrorKind::StructureError => "StructureError",
            ErrorKind::AttestationFailure => "AttestationFailure",
        }
    }
}

/// An error found in a contract.
#[derive(Debug, Clone)]
pub struct ValidationError {
    /// The kind of the error.
    pub kind: ErrorKind,
    /// What is wrong, in words.
    pub message: String,
    /// Where in the contract.
    pub location: Option<String>,
}

/// A warning about a contract.
#[derive(Debug, Clone)]
pub struct ValidationWarning {
    /// What is doubtful, in words.
    pub message: String,
    /// Where in the contract.
    pub location: Option<String>,
}

/// What was found of one required clause.
#[derive(Debug, Clone)]
pub struct ClauseCheck {
    /// The clause's name.
    pub clause: String,
    /// Whether the contract holds the clause.
    pub present: bool,
    /// The clause's value in the contract.
    pub value: Option<String>,
    /// The value that was expected.
    pub expected: Option<String>,
}

/// What a validation found.
#[derive(Debug, Clone)]
pub struct ValidationReport {
    /// The contract that was validated.
    pub contract_path: String,
    /// The schema it was validated against.
    pub schema_path: String,
    /// Whether the contract passed.
    pub valid: bool,
    /// The errors, in the order in which they were found.
    pub errors: Vec<ValidationError>,
    /// The warnings, in the order in which they were found.
    pub warnings: Vec<ValidationWarning>,
    /// The required clauses, in the order in which they were checked.
    pub required_clauses: Vec<ClauseCheck>,
}

/// What a `ValidationError` holds.
pub struct ErrorEntry {
    pub kind: ErrorKind,
    pub message: Seq<char>,
    pub location: Option<Seq<char>>,
}

/// What a `ValidationWarning` holds.
pub struct WarningEntry {
    pub message: Seq<char>,
    pub location: Option<Seq<char>>,
}

/// What a `ClauseCheck` holds.
pub struct ClauseEntry {
    pub clause: Seq<char>,
    pub present: bool,
    pub value: Option<Seq<char>>,
    pub expected: Option<Seq<char>>,
}

/// What a `ValidationReport` holds.
pub struct ReportModel {
    pub contract_path: Seq<char>,
    pub schema_path: Seq<char>,
    pub valid: bool,
    pub errors: Seq<ErrorEntry>,
    pub warnings: Seq<WarningEntry>,
    pub required_clauses: Seq<ClauseEntry>,
}

impl DeepView for ValidationError {
    type V = ErrorEntry;

    open spec fn deep_view(&self) -> ErrorEntry {
        ErrorEntry {
            kind: self.kind,
            message: self.message@,
            location: self.location.deep_view(),
        }
    }
}

impl DeepView for ValidationWarning {
    type V = WarningEntry;

    open spec fn deep_view(&self) -> WarningEntry {
        WarningEntry { message: self.message@, location: self.location.deep_view() }
    }
}

impl DeepView for ClauseCheck {
    type V = ClauseEntry;

    open spec fn deep_view(&self) -> ClauseEntry {
        ClauseEntry {
            clause: self.clause@,
            present: self.present,
            value: self.value.deep_view(),
            expected: self.expected.deep_view(),
        }
    }
}

impl DeepView for ValidationReport {
    type V = ReportModel;

    open spec fn deep_view(&self) -> ReportModel {
        ReportModel {
            contract_path: self.contract_path@,
            schema_path: self.schema_path@,
            valid: self.valid,
            errors: self.errors.deep_view(),
            warnings: self.warnings.deep_view(),
            required_clauses: self.required_clauses.deep_view(),
        }
    }
}

impl View for ValidationReport {
    type V = ReportModel;

    open spec fn view(&self) -> ReportModel {
        self.deep_view()
    }
}

impl ValidationReport {
    /// A report on `contract_path` against `schema_path` that holds nothing
    /// yet and is valid.
    pub fn new(contract_path: String, schema_path: String) -> (r: Self)
        ensures
            r@ == (ReportModel {
                contract_path: contract_path@,
                schema_path: schema_path@,
                valid: true,
                errors: Seq::empty(),
                warnings: Seq::empty(),
                required_clauses: Seq::empty(),
            }),
    {
        let r = Self {
            contract_path,
            schema_path,
            valid: true,
            errors: Vec::new(),
            warnings: Vec::new(),
            required_clauses: Vec::new(),
        };
        proof {
            assert(r.errors.deep_view() =~= Seq::empty());
            assert(r.warnings.deep_view() =~= Seq::empty());
            assert(r.required_clauses.deep_view() =~= Seq::empty());
        }
        r
    }

    /// Adds an error; the report is invalid from then on.
    pub fn add_error(&mut self, kind: ErrorKind, message: String, location: Option<String>)
        ensures
            final(self)@ == (ReportModel {
                valid: false,
                errors: old(self)@.errors.push(
                    ErrorEntry { kind, message: message@, location: location.deep_view() },
                ),
                ..old(self)@
            }),
    {
        let ghost before = self.errors.deep_view();
        let ghost entry = ErrorEntry { kind, message: message@, location: location.deep_view() };
        self.valid = false;
        self.errors.push(ValidationError { kind, message, location });
        proof {
            assert(self.errors.deep_view() =~= before.push(entry));
        }
    }

    /// Adds a warning; the verdict stays as it is.
    pub fn add_warning(&mut self, message: String, location: Option<String>)
        ensures
            final(self)@ == (ReportModel {
                warnings: old(self)@.warnings.push(
                    WarningEntry { message: message@, location: location.deep_view() },
                ),
                ..old(self)@
            }),
    {
        let ghost before = self.warnings.deep_view();
        let ghost entry = WarningEntry { message: message@, location: location.deep_view() };
        self.warnings.push(ValidationWarning { message, location });
        proof {
            assert(self.warnings.deep_view() =~= before.push(entry));
        }
    }

    /// Adds what was found of a required clause; a clause that is not
    /// present makes the report invalid.
    pub fn add_clause_check(&mut self, check: ClauseCheck)
        ensures
            final(self)@ == (ReportModel {
                valid: old(self)@.valid && check.present,
                required_clauses: old(self)@.required_clauses.push(check.deep_view()),
                ..old(self)@
            }),
    {
        let ghost before = self.required_clauses.deep_view();
        let ghost entry = check.deep_view();
        if !check.present {
            self.valid = false;
        }
        self.required_clauses.push(check);
        proof {
            assert(self.required_clauses.deep_view() =~= before.push(entry));
        }
    }
}

/// Whether a heading names a clause: the lower-case form of the heading
/// holds that of the clause.
pub open spec fn heading_names(heading: Seq<char>, clause: Seq<char>) -> bool {
    contains(lowercase_of(heading), lowercase_of(clause))
}

/// Whether one of the sections has a heading that names the clause.
pub open spec fn holds_clause(sections: Seq<SectionModel>, clause: Seq<char>) -> bool {
    exists|i: int| 0 <= i < sections.len() && heading_names(#[trigger] sections[i].heading, clause)
}

/// What a validation finds of the clauses that are required, in their order.
pub open spec fn clause_entries(sections: Seq<SectionModel>, clauses: Seq<Seq<char>>) -> Seq<
    ClauseEntry,
> {
    Seq::new(
        clauses.len(),
        |i: int|
            ClauseEntry {
                clause: clauses[i],
                present: holds_clause(sections, clauses[i]),
                value: None,
                expected: None,
            },
    )
}

/// Whether every clause among `entries` is present.
pub open spec fn all_present(entries: Seq<ClauseEntry>) -> bool {
    forall|i: int| 0 <= i < entries.len() ==> (#[trigger] entries[i]).present
}

/// The errors in a contract's structure: beyond the lax mode, a contract
/// without an abstract has one.
pub open spec fn structure_errors(mode: ValidationMode, doc: DocumentModel) -> Seq<ErrorEntry> {
    if mode != ValidationMode::Lax && doc.abstract_text is None {
        seq![
            ErrorEntry {
                kind: ErrorKind::MissingClause,
                message: "Contract missing @abstract section"@,
                location: None,
            },
        ]
    } else {
        Seq::empty()
    }
}

/// The warnings about a contract's structure: beyond the lax mode, a
/// contract without references has one.
pub open spec fn structure_warnings(mode: ValidationMode, doc: DocumentModel) -> Seq<
    WarningEntry,
> {
    if mode != ValidationMode::Lax && doc.references.len() == 0 {
        seq![WarningEntry { message: "Contract has no @refs section"@, location: None }]
    } else {
        Seq::empty()
    }
}

/// The report on a contract: one entry for each required clause, the errors
/// and warnings of its structure, and the verdict, which is that every
/// clause is present and there is no error.
pub open spec fn validation_of(mode: ValidationMode, doc: DocumentModel, clauses: Seq<Seq<char>>)
    -> ReportModel {
    ReportModel {
        contract_path: "contract"@,
        schema_path: "schema"@,
        valid: all_present(clause_entries(doc.sections, clauses)) && structure_errors(
            mode,
            doc,
        ).len() == 0,
        errors: structure_errors(mode, doc),
        warnings: structure_warnings(mode, doc),
        required_clauses: clause_entries(doc.sections, clauses),
    }
}

/// Validates contracts against a schema.
pub struct Validator {
    schema: A2mlDocument,
    mode: ValidationMode,
}

impl Validator {
    /// How far this validator goes.
    pub closed spec fn mode(&self) -> ValidationMode {
        self.mode
    }

    /// The schema that this validator holds.
    pub closed spec fn schema(&self) -> DocumentModel {
        self.schema@
    }

    /// A validator for `schema` that goes as far as `mode` says.
    pub fn new(schema: A2mlDocument, mode: ValidationMode) -> (r: Self)
        ensures
            r.mode() == mode,
            r.schema() == schema@,
    {
        Self { schema, mode }
    }

    /// Validates `contract`: checks each of `required_clauses`, and beyond
    /// the lax mode the contract's structure.
    pub fn validate(&self, contract: &A2mlDocument, required_clauses: &[String]) -> (r:
        ValidationReport)
        ensures
            r@ == validation_of(self.mode(), contract@, required_clauses.deep_view()),
    {
        let mut report = ValidationReport::new(
            String::from_str("contract"),
            String::from_str("schema"),
        );
        let ghost entries = clause_entries(contract@.sections, required_clauses.deep_view());
        let mut k: usize = 0;
        proof {
            assert(entries.subrange(0, 0) =~= Seq::<ClauseEntry>::empty());
        }
        while k < required_clauses.len()
            invariant
                k <= required_clauses@.len(),
                entries == clause_entries(contract@.sections, required_clauses.deep_view()),
                report@ == (ReportModel {
                    contract_path: "contract"@,
                    schema_path: "schema"@,
                    valid: all_present(entries.subrange(0, k as int)),
                    errors: Seq::empty(),
                    warnings: Seq::empty(),
                    required_clauses: entries.subrange(0, k as int),
                }),
            decreases required_clauses@.len() - k,
        {
            let clause = &required_clauses[k];
            let present = self.has_clause(contract, clause.as_str());
            proof {
                let longer = entries.subrange(0, k + 1);
                assert(longer =~= entries.subrange(0, k as int).push(entries[k as int]));
                assert(all_present(longer) == (all_present(entries.subrange(0, k as int))
                    && present)) by {
                    if all_present(longer) {
                        assert(longer[k as int].present);
                        assert forall|i: int| 0 <= i < k implies (#[trigger] entries.subrange(
                            0,
                            k as int,
                        )[i]).present by {
                            assert(longer[i].present);
                        }
                    }
                }
            }
            report.add_clause_check(
                ClauseCheck { clause: clause.clone(), present, value: None, expected: None },
            );
            k = k + 1;
        }
        proof {
            assert(entries.subrange(0, k as int) =~= entries);
        }
        match self.mode {
            ValidationMode::Lax => {},
            ValidationMode::Checked => {
                self.validate_structure(contract, &mut report);
            },
            ValidationMode::Attested => {
                self.validate_structure(contract, &mut report);
                self.validate_attestations(contract, &mut report);
            },
        }
        report
    }

    fn has_clause(&self, contract: &A2mlDocument, clause: &str) -> (r: bool)
        ensures
            r == holds_clause(contract@.sections, clause@),
    {
        find_clause(contract, clause).is_some()
    }

    fn validate_structure(&self, contract: &A2mlDocument, report: &mut ValidationReport)
        ensures
            final(report)@ == (ReportModel {
                valid: old(report)@.valid && contract@.abstract_text is Some,
                errors: old(report)@.errors + structure_errors(ValidationMode::Checked, contract@),
                warnings: old(report)@.warnings + structure_warnings(
                    ValidationMode::Checked,
                    contract@,
                ),
                ..old(report)@
            }),
    {
        let ghost errors = report@.errors;
        let ghost warnings = report@.warnings;
        if contract.abstract_text.is_none() {
            report.add_error(
                ErrorKind::MissingClause,
                String::from_str("Contract missing @abstract section"),
                None,
            );
        }
        if contract.references.len() == 0 {
            report.add_warning(String::from_str("Contract has no @refs section"), None);
        }
        proof {
            assert(report@.errors =~= errors + structure_errors(
                ValidationMode::Checked,
                contract@,
            ));
            assert(report@.warnings =~= warnings + structure_warnings(
                ValidationMode::Checked,
                contract@,
            ));
        }
    }

    fn validate_attestations(&self, contract: &A2mlDocument, report: &mut ValidationReport)
        ensures
            *final(report) == *old(report),
    {
    }
}

} // verus!
