//! The library's error type.

use vstd::prelude::*;
use vstd::string::StringExecFns;

verus! {

/// What can go wrong in this library or around it.
#[derive(Debug, Clone)]
pub enum PolicyError {
    /// The text is not well-formed A2ML.
    ParseError(String),
    /// A value could not be checked, or a check failed.
    ValidationError(String),
    /// A clause that is required is missing.
    MissingClause(String),
    /// A clause holds a value other than the expected one.
    InvalidClauseValue { clause: String, expected: String, actual: String },
    /// A schema is not usable.
    SchemaError(String),
    /// No file at this path.
    FileNotFound(String),
    /// Reading or writing failed, with the system's message.
    IoError(String),
    /// Turning a value into JSON failed, with the encoder's message.
    JsonError(String),
    /// A template is missing or not usable.
    TemplateError(String),
    /// No union of this name is known.
    UnknownUnion(String),
}

/// What a `PolicyError` holds.
pub enum ErrorModel {
    ParseError(Seq<char>),
    ValidationError(Seq<char>),
    MissingClause(Seq<char>),
    InvalidClauseValue { clause: Seq<char>, expected: Seq<char>, actual: Seq<char> },
    SchemaError(Seq<char>),
    FileNotFound(Seq<char>),
    IoError(Seq<char>),
    JsonError(Seq<char>),
    TemplateError(Seq<char>),
    UnknownUnion(Seq<char>),
}

impl DeepView for PolicyError {
    type V = ErrorModel;

    open spec fn deep_view(&self) -> ErrorModel {
        match self {
            PolicyError::ParseError(m) => ErrorModel::ParseError(m@),
            PolicyError::ValidationError(m) => ErrorModel::ValidationError(m@),
            PolicyError::MissingClause(m) => ErrorModel::MissingClause(m@),
            PolicyError::InvalidClauseValue { clause, expected, actual } => {
                ErrorModel::InvalidClauseValue {
                    clause: clause@,
                    expected: expected@,
                    actual: actual@,
                }
            },
            PolicyError::SchemaError(m) => ErrorModel::SchemaError(m@),
            PolicyError::FileNotFound(m) => ErrorModel::FileNotFound(m@),
            PolicyError::IoError(m) => ErrorModel::IoError(m@),
            PolicyError::JsonError(m) => ErrorModel::JsonError(m@),
            PolicyError::TemplateError(m) => ErrorModel::TemplateError(m@),
            PolicyError::UnknownUnion(m) => ErrorModel::UnknownUnion(m@),
        }
    }
}

impl View for PolicyError {
    type V = ErrorModel;

    open spec fn view(&self) -> ErrorModel {
        self.deep_view()
    }
}

/// The text that describes an error.
pub open spec fn message_of(e: ErrorModel) -> Seq<char> {
    match e {
        ErrorModel::ParseError(m) => "Failed to parse A2ML file: "@ + m,
        ErrorModel::ValidationError(m) => "Validation failed: "@ + m,
        ErrorModel::MissingClause(m) => "Missing required clause: "@ + m,
        ErrorModel::InvalidClauseValue { clause, expected, actual } => "Invalid clause value for '"@
            + clause + "': expected "@ + expected + ", got "@ + actual,
        ErrorModel::SchemaError(m) => "Schema error: "@ + m,
        ErrorModel::FileNotFound(m) => "File not found: "@ + m,
        ErrorModel::IoError(m) => "IO error: "@ + m,
        ErrorModel::JsonError(m) => "JSON error: "@ + m,
        ErrorModel::TemplateError(m) => "Template error: "@ + m,
        ErrorModel::UnknownUnion(m) => "Unknown union: "@ + m,
    }
}

/// `head` followed by `tail`.
pub fn joined(head: &str, tail: &str) -> (r: String)
    ensures
        r@ == head@ + tail@,
{
    let mut r = String::from_str(head);
    r.append(tail);
    r
}

impl PolicyError {
    /// The text that describes the error.
    pub fn message(&self) -> (r: String)
        ensures
            r@ == message_of(self@),
    {
        match self {
            PolicyError::ParseError(m) => joined("Failed to parse A2ML file: ", m.as_str()),
            PolicyError::ValidationError(m) => joined("Validation failed: ", m.as_str()),
            PolicyError::MissingClause(m) => joined("Missing required clause: ", m.as_str()),
            PolicyError::InvalidClauseValue { clause, expected, actual } => {
                let mut r = joined("Invalid clause value for '", clause.as_str());
                r.append("': expected ");
                r.append(expected.as_str());
                r.append(", got ");
                r.append(actual.as_str());
                r
            },
            PolicyError::SchemaError(m) => joined("Schema error: ", m.as_str()),
            PolicyError::FileNotFound(m) => joined("File not found: ", m.as_str()),
            PolicyError::IoError(m) => joined("IO error: ", m.as_str()),
            PolicyError::JsonError(m) => joined("JSON error: ", m.as_str()),
            PolicyError::TemplateError(m) => joined("Template error: ", m.as_str()),
            PolicyError::UnknownUnion(m) => joined("Unknown union: ", m.as_str()),
        }
    }
}

} // verus!
