//! A parser for A2ML, a Markdown-like markup for contracts and policy schemas,
//! with the clause tables, the validator and the report renderers that read
//! its documents.

pub mod chars;
pub mod commands;
pub mod error;
pub mod grammar;
pub mod json;
pub mod laws;
pub mod parser;
pub mod reporter;
pub mod rules;
pub mod schemas;
pub mod text;
pub mod validator;
