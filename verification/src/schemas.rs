//! The unions that are known, with the clauses each of them asks for and the
//! values it accepts.

use crate::chars::{lowercase_of, to_lowercase};
use crate::error::{joined, ErrorModel, PolicyError};
use crate::text::{parse_u32, same_text, u32_of};
use std::collections::HashMap;
use vstd::prelude::*;
use vstd::string::StringExecFns;

verus! {

/// The unions whose standards are known.
#[derive(Debug, Clone, Copy, PartialEq, Eq, Structural)]
pub enum Union {
    /// National Union of Journalists.
    Nuj,
    /// Industrial Workers of the World.
    Iww,
    /// University and College Union.
    Ucu,
}

/// The union with the lower-case name `lower`.
pub open spec fn union_named(lower: Seq<char>) -> Option<Union> {
    if lower == "nuj"@ {
        Some(Union::Nuj)
    } else if lower == "iww"@ {
        Some(Union::Iww)
    } else if lower == "ucu"@ {
        Some(Union::Ucu)
    } else {
        None
    }
}

/// The lower-case name of a union.
pub open spec fn name_of(u: Union) -> Seq<char> {
    match u {
        Union::Nuj => "nuj"@,
        Union::Iww => "iww"@,
        Union::Ucu => "ucu"@,
    }
}

/// Where the schema of a union lies by default.
pub open spec fn schema_path_of(u: Union) -> Seq<char> {
    match u {
        Union::Nuj => "schemas/nuj-code-of-ethics.a2ml"@,
        Union::Iww => "schemas/iww-freelancer-rights.a2ml"@,
        Union::Ucu => "schemas/ucu-academic-standards.a2ml"@,
    }
}

/// The clauses that a union requires.
pub open spec fn required_of(u: Union) -> Seq<Seq<char>> {
    match u {
        Union::Nuj => seq![
            "truth-accuracy"@,
            "independence"@,
            "fairness"@,
            "privacy-harassment"@,
            "accountability"@,
            "source-protection"@,
            "anti-discrimination"@,
            "no-plagiarism"@,
            "editorial-independence"@,
        ],
        Union::Iww => seq![
            "payment-terms"@,
            "late-payment-penalty"@,
            "collective-voice"@,
            "no-free-trials"@,
            "no-spec-work"@,
            "kill-fee-provision"@,
        ],
        Union::Ucu => seq![
            "academic-freedom"@,
            "workload-limits"@,
            "research-time"@,
            "teaching-load"@,
            "no-casualization"@,
        ],
    }
}

/// The clauses that a union recommends.
pub open spec fn recommended_of(u: Union) -> Seq<Seq<char>> {
    match u {
        Union::Nuj => seq![
            "transparency"@,
            "diversity"@,
            "accessibility"@,
            "environmental-impact"@,
        ],
        Union::Iww => seq!["portable-benefits"@, "equipment-allowance"@, "training-budget"@],
        Union::Ucu => seq![
            "sabbatical-provision"@,
            "conference-funding"@,
            "phd-supervision-limits"@,
        ],
    }
}

/// The wordings that a union warns of.
pub open spec fn red_flags_of(u: Union) -> Seq<Seq<char>> {
    match u {
        Union::Nuj => seq![
            "all rights"@,
            "work for hire"@,
            "perpetual license"@,
            "no source protection"@,
            "editorial override"@,
        ],
        Union::Iww => seq![
            "free trial"@,
            "spec work"@,
            "unpaid"@,
            "payment on publication"@,
            "no kill fee"@,
            "NET 60"@,
            "NET 90"@,
        ],
        Union::Ucu => seq![
            "unlimited hours"@,
            "no research time"@,
            "casualization"@,
            "zero hours"@,
            "no sabbatical"@,
        ],
    }
}

impl Union {
    /// The union whose lower-case name is `lower`.
    pub fn from_lowercase(lower: &str) -> (r: Option<Union>)
        ensures
            r == union_named(lower@),
    {
        if same_text(lower, "nuj") {
            Some(Union::Nuj)
        } else if same_text(lower, "iww") {
            Some(Union::Iww)
        } else if same_text(lower, "ucu") {
            Some(Union::Ucu)
        } else {
            None
        }
    }

    /// The union that `s` names, in whatever case it is written.
    pub fn from_str(s: &str) -> (r: Result<Union, PolicyError>)
        ensures
            match union_named(lowercase_of(s@)) {
                Some(u) => r is Ok && r->Ok_0 == u,
                None => r is Err && r->Err_0.deep_view() == ErrorModel::UnknownUnion(s@),
            },
    {
        let lower = to_lowercase(s);
        match Union::from_lowercase(lower.as_str()) {
            Some(u) => Ok(u),
            None => Err(PolicyError::UnknownUnion(String::from_str(s))),
        }
    }

    /// The union's lower-case name.
    pub fn as_str(&self) -> (r: &'static str)
        ensures
            r@ == name_of(*self),
    {
        match self {
            Union::Nuj => "nuj",
            Union::Iww => "iww",
            Union::Ucu => "ucu",
        }
    }

    /// Where the union's schema lies by default.
    pub fn default_schema_path(&self) -> (r: &'static str)
        ensures
            r@ == schema_path_of(*self),
    {
        match self {
            Union::Nuj => "schemas/nuj-code-of-ethics.a2ml",
            Union::Iww => "schemas/iww-freelancer-rights.a2ml",
            Union::Ucu => "schemas/ucu-academic-standards.a2ml",
        }
    }

    /// The clauses that the union requires.
    pub fn required_clauses(&self) -> (r: Vec<&'static str>)
        ensures
            r.deep_view() == required_of(*self),
    {
        let r = match self {
            Union::Nuj => vec![
                "truth-accuracy",
                "independence",
                "fairness",
                "privacy-harassment",
                "accountability",
                "source-protection",
                "anti-discrimination",
                "no-plagiarism",
                "editorial-independence",
            ],
            Union::Iww => vec![
                "payment-terms",
                "late-payment-penalty",
                "collective-voice",
                "no-free-trials",
                "no-spec-work",
                "kill-fee-provision",
            ],
            Union::Ucu => vec![
                "academic-freedom",
                "workload-limits",
                "research-time",
                "teaching-load",
                "no-casualization",
            ],
        };
        r
    }

    /// The clauses that the union recommends.
    pub fn recommended_clauses(&self) -> (r: Vec<&'static str>)
        ensures
            r.deep_view() == recommended_of(*self),
    {
        let r = match self {
            Union::Nuj => vec![
                "transparency",
                "diversity",
                "accessibility",
                "environmental-impact",
            ],
            Union::Iww => vec!["portable-benefits", "equipment-allowance", "training-budget"],
            Union::Ucu => vec![
                "sabbatical-provision",
                "conference-funding",
                "phd-supervision-limits",
            ],
        };
        r
    }

    /// The wordings that the union warns of.
    pub fn red_flag_patterns(&self) -> (r: Vec<&'static str>)
        ensures
            r.deep_view() == red_flags_of(*self),
    {
        let r = match self {
            Union::Nuj => vec![
                "all rights",
                "work for hire",
                "perpetual license",
                "no source protection",
                "editorial override",
            ],
            Union::Iww => vec![
                "free trial",
                "spec work",
                "unpaid",
                "payment on publication",
                "no kill fee",
                "NET 60",
                "NET 90",
            ],
            Union::Ucu => vec![
                "unlimited hours",
                "no research time",
                "casualization",
                "zero hours",
                "no sabbatical",
            ],
        };
        r
    }
}

/// What the National Union of Journalists asks of a clause's value, given
/// the value and its lower-case form.
pub open spec fn nuj_met(clause: Seq<char>, value: Seq<char>, lowered: Seq<char>) -> bool {
    if clause == "source-protection"@ {
        lowered == "guaranteed"@ || value == "true"@
    } else if clause == "editorial-independence"@ {
        value == "true"@
    } else if clause == "copyright-ownership"@ {
        value == "freelancer"@ || value == "first-publication-only"@
    } else {
        true
    }
}

/// The least percentage that a union accepts for a clause that is measured
/// in percent.
pub open spec fn percent_floor_of(u: Union, clause: Seq<char>) -> Option<u32> {
    if u == Union::Iww && clause == "late-payment-penalty"@ {
        Some(5)
    } else if u == Union::Iww && clause == "kill-fee"@ {
        Some(50)
    } else {
        None
    }
}

/// What the Industrial Workers of the World ask of the value of a clause
/// that is not measured in percent: payment within 30 days.
pub open spec fn iww_outcome(clause: Seq<char>, value: Seq<char>) -> Result<bool, ErrorModel> {
    if clause == "payment-terms.net-days"@ {
        match u32_of(value) {
            Some(days) => Ok(days <= 30),
            None => Err(ErrorModel::ValidationError("Invalid NET days: "@ + value)),
        }
    } else {
        Ok(true)
    }
}

/// What the University and College Union asks of a clause's value, given the
/// value and its lower-case form.
pub open spec fn ucu_outcome(clause: Seq<char>, value: Seq<char>, lowered: Seq<char>) -> Result<
    bool,
    ErrorModel,
> {
    if clause == "academic-freedom"@ {
        Ok(lowered == "guaranteed"@)
    } else if clause == "workload-hours-max"@ {
        match u32_of(value) {
            Some(hours) => Ok(hours <= 40),
            None => Err(ErrorModel::ValidationError("Invalid hours: "@ + value)),
        }
    } else {
        Ok(true)
    }
}

/// What a union asks of a clause's value, where the clause is not measured
/// in percent.
pub open spec fn clause_outcome(u: Union, clause: Seq<char>, value: Seq<char>, lowered: Seq<char>)
    -> Result<bool, ErrorModel> {
    match u {
        Union::Nuj => Ok(nuj_met(clause, value, lowered)),
        Union::Iww => iww_outcome(clause, value),
        Union::Ucu => ucu_outcome(clause, value, lowered),
    }
}

/// Whether `r` is the outcome `o`.
pub open spec fn is_outcome(r: Result<bool, PolicyError>, o: Result<bool, ErrorModel>) -> bool {
    match o {
        Ok(met) => r is Ok && r->Ok_0 == met,
        Err(e) => r is Err && r->Err_0.deep_view() == e,
    }
}

/// The rules of one union.
pub struct UnionRules {
    union: Union,
    custom_rules: HashMap<String, String>,
}

impl UnionRules {
    /// The union whose rules these are.
    pub closed spec fn union(&self) -> Union {
        self.union
    }

    /// The rules that were added to the union's own.
    pub closed spec fn custom_rules(&self) -> Map<String, String> {
        self.custom_rules@
    }

    /// The rules of `union`, with none added.
    pub fn new(union: Union) -> (r: Self)
        ensures
            r.union() == union,
            r.custom_rules() == Map::<String, String>::empty(),
    {
        Self { union, custom_rules: HashMap::new() }
    }

    /// The least percentage that the union accepts for `clause`, where the
    /// clause is measured in percent. Such a clause is not checked here: the
    /// caller reads the number and compares.
    pub fn percent_floor(&self, clause: &str) -> (r: Option<u32>)
        ensures
            r == percent_floor_of(self.union(), clause@),
    {
        match self.union {
            Union::Iww => {
                if same_text(clause, "late-payment-penalty") {
                    Some(5)
                } else if same_text(clause, "kill-fee") {
                    Some(50)
                } else {
                    None
                }
            },
            _ => None,
        }
    }

    /// Whether `value` meets what the union asks of `clause`, for a clause
    /// that is not measured in percent.
    pub fn check_clause_value(&self, clause: &str, value: &str) -> (r: Result<bool, PolicyError>)
        requires
            percent_floor_of(self.union(), clause@) is None,
        ensures
            is_outcome(r, clause_outcome(self.union(), clause@, value@, lowercase_of(value@))),
    {
        match self.union {
            Union::Nuj => self.check_nuj_clause(clause, value),
            Union::Iww => self.check_iww_clause(clause, value),
            Union::Ucu => self.check_ucu_clause(clause, value),
        }
    }

    /// `check_clause_value`, for any clause: `None` where the clause is
    /// measured in percent.
    pub fn try_check_clause_value(&self, clause: &str, value: &str) -> (r: Option<
        Result<bool, PolicyError>,
    >)
        ensures
            match percent_floor_of(self.union(), clause@) {
                Some(_) => r is None,
                None => r is Some && is_outcome(
                    r->Some_0,
                    clause_outcome(self.union(), clause@, value@, lowercase_of(value@)),
                ),
            },
    {
        match self.percent_floor(clause) {
            Some(_) => None,
            None => Some(self.check_clause_value(clause, value)),
        }
    }

    /// Decides `nuj_met`.
    pub fn nuj_clause_met(clause: &str, value: &str, lowered: &str) -> (r: bool)
        ensures
            r == nuj_met(clause@, value@, lowered@),
    {
        if same_text(clause, "source-protection") {
            same_text(lowered, "guaranteed") || same_text(value, "true")
        } else if same_text(clause, "editorial-independence") {
            same_text(value, "true")
        } else if same_text(clause, "copyright-ownership") {
            same_text(value, "freelancer") || same_text(value, "first-publication-only")
        } else {
            true
        }
    }

    /// Decides `ucu_outcome`.
    pub fn ucu_clause_outcome(clause: &str, value: &str, lowered: &str) -> (r: Result<
        bool,
        PolicyError,
    >)
        ensures
            is_outcome(r, ucu_outcome(clause@, value@, lowered@)),
    {
        if same_text(clause, "academic-freedom") {
            Ok(same_text(lowered, "guaranteed"))
        } else if same_text(clause, "workload-hours-max") {
            match parse_u32(value) {
                Some(hours) => Ok(hours <= 40),
                None => Err(PolicyError::ValidationError(joined("Invalid hours: ", value))),
            }
        } else {
            Ok(true)
        }
    }

    fn check_nuj_clause(&self, clause: &str, value: &str) -> (r: Result<bool, PolicyError>)
        ensures
            is_outcome(r, Ok(nuj_met(clause@, value@, lowercase_of(value@)))),
    {
        let lowered = to_lowercase(value);
        Ok(Self::nuj_clause_met(clause, value, lowered.as_str()))
    }

    fn check_iww_clause(&self, clause: &str, value: &str) -> (r: Result<bool, PolicyError>)
        ensures
            is_outcome(r, iww_outcome(clause@, value@)),
    {
        if same_text(clause, "payment-terms.net-days") {
            match parse_u32(value) {
                Some(days) => Ok(days <= 30),
                None => Err(PolicyError::ValidationError(joined("Invalid NET days: ", value))),
            }
        } else {
            Ok(true)
        }
    }

    fn check_ucu_clause(&self, clause: &str, value: &str) -> (r: Result<bool, PolicyError>)
        ensures
            is_outcome(r, ucu_outcome(clause@, value@, lowercase_of(value@))),
    {
        let lowered = to_lowercase(value);
        Self::ucu_clause_outcome(clause, value, lowered.as_str())
    }
}

} // verus!
