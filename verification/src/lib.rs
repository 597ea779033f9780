//! Validator entry point for callers in other languages: it parses a policy
//! set and a schema, runs the policy validator, and gathers everything the
//! validator reported into one answer of plain records.
//!
//! The policy parser, the schema parser and the validator are handed in by
//! the caller; this crate decides what is parsed and validated, in which
//! order, and how each outcome becomes part of the answer.
pub mod answer;
pub mod call;
pub mod laws;
pub mod validate;

pub use answer::{
    AnswerView, IssueView, SourceLocation, ValidationAnswer, ValidationError, ValidationWarning,
};
pub use call::{PolicySet, Schema, ValidationCall, ValidationEnabled, ValidationSettings, WithWarnings};
pub use validate::{validate, Finding, ValidatorReport};
