//! The records that make up a validation answer.
use vstd::prelude::*;

verus! {

/// What a reported issue is, mathematically: the id of the policy it concerns,
/// the span of policy source it points at (offset and length), if known, and
/// its message.
pub type IssueView = (Seq<char>, Option<(usize, usize)>, Seq<char>);

/// The characters of each string of a sequence.
pub open spec fn strings_view(v: Seq<String>) -> Seq<Seq<char>> {
    v.map_values(|s: String| s@)
}

/// Represents a location in Cedar policy source.
#[derive(Clone, Copy, Debug)]
pub struct SourceLocation {
    offset: usize,
    length: usize,
}

impl View for SourceLocation {
    type V = (usize, usize);

    /// The offset and the length of the span.
    closed spec fn view(&self) -> (usize, usize) {
        (self.offset, self.length)
    }
}

/// The offset and length of an optional span.
pub open spec fn location_view(l: Option<SourceLocation>) -> Option<(usize, usize)> {
    match l {
        Some(l) => Some(l@),
        None => None,
    }
}

impl SourceLocation {
    /// The span that starts at `offset` and covers `length` bytes.
    pub fn new(offset: usize, length: usize) -> (r: Self)
        ensures
            r@ == (offset, length),
    {
        SourceLocation { offset, length }
    }

    /// Where the span starts.
    pub fn offset(&self) -> (r: usize)
        ensures
            r == self@.0,
    {
        self.offset
    }

    /// How many bytes the span covers.
    pub fn length(&self) -> (r: usize)
        ensures
            r == self@.1,
    {
        self.length
    }
}

/// A record of one reported issue: a validation error or a validation warning.
pub trait IssueRecord: Sized + View<V = IssueView> {
    /// The record of `message`, reported about the policy `policy_id` at
    /// `source_location`.
    fn from_parts(policy_id: String, source_location: Option<SourceLocation>, message: String) -> (r:
        Self)
        ensures
            r@ == (policy_id@, location_view(source_location), message@),
    ;
}

/// Error for a specified policy after validation
#[derive(Debug)]
pub struct ValidationError {
    policy_id: String,
    /// Represents a location in Cedar policy source.
    source_location: Option<SourceLocation>,
    error: String,
}

impl View for ValidationError {
    type V = IssueView;

    closed spec fn view(&self) -> IssueView {
        (self.policy_id@, location_view(self.source_location), self.error@)
    }
}

impl IssueRecord for ValidationError {
    fn from_parts(policy_id: String, source_location: Option<SourceLocation>, message: String) -> (r:
        Self) {
        ValidationError::new(policy_id, source_location, message)
    }
}

impl ValidationError {
    /// The error `error` reported about the policy `policy_id`, at `source_location`.
    pub fn new(policy_id: String, source_location: Option<SourceLocation>, error: String) -> (r:
        Self)
        ensures
            r@ == (policy_id@, location_view(source_location), error@),
    {
        ValidationError { policy_id, source_location, error }
    }

    /// The id of the policy that the error concerns.
    pub fn policy_id(&self) -> (r: &str)
        ensures
            r@ == self@.0,
    {
        self.policy_id.as_str()
    }

    /// The span of policy source that the error points at, if known.
    pub fn source_location(&self) -> (r: Option<SourceLocation>)
        ensures
            location_view(r) == self@.1,
    {
        self.source_location
    }

    /// The message of the error.
    pub fn error(&self) -> (r: &str)
        ensures
            r@ == self@.2,
    {
        self.error.as_str()
    }

    /// The policy id, the span and the message, handed out by value.
    pub fn into_parts(self) -> (r: (String, Option<SourceLocation>, String))
        ensures
            (r.0@, location_view(r.1), r.2@) == self@,
    {
        (self.policy_id, self.source_location, self.error)
    }
}

/// Warning for a specified policy after validation
#[derive(Debug)]
pub struct ValidationWarning {
    policy_id: String,
    /// Represents a location in Cedar policy source.
    source_location: Option<SourceLocation>,
    warning: String,
}

impl View for ValidationWarning {
    type V = IssueView;

    closed spec fn view(&self) -> IssueView {
        (self.policy_id@, location_view(self.source_location), self.warning@)
    }
}

impl IssueRecord for ValidationWarning {
    fn from_parts(policy_id: String, source_location: Option<SourceLocation>, message: String) -> (r:
        Self) {
        ValidationWarning::new(policy_id, source_location, message)
    }
}

impl ValidationWarning {
    /// The warning `warning` reported about the policy `policy_id`, at `source_location`.
    pub fn new(policy_id: String, source_location: Option<SourceLocation>, warning: String) -> (r:
        Self)
        ensures
            r@ == (policy_id@, location_view(source_location), warning@),
    {
        ValidationWarning { policy_id, source_location, warning }
    }

    /// The id of the policy that the warning concerns.
    pub fn policy_id(&self) -> (r: &str)
        ensures
            r@ == self@.0,
    {
        self.policy_id.as_str()
    }

    /// The span of policy source that the warning points at, if known.
    pub fn source_location(&self) -> (r: Option<SourceLocation>)
        ensures
            location_view(r) == self@.1,
    {
        self.source_location
    }

    /// The message of the warning.
    pub fn warning(&self) -> (r: &str)
        ensures
            r@ == self@.2,
    {
        self.warning.as_str()
    }

    /// The policy id, the span and the message, handed out by value.
    pub fn into_parts(self) -> (r: (String, Option<SourceLocation>, String))
        ensures
            (r.0@, location_view(r.1), r.2@) == self@,
    {
        (self.policy_id, self.source_location, self.warning)
    }
}

/// Result struct for validation
#[derive(Debug)]
pub enum ValidationAnswer {
    /// Represents a failure to parse or call the validator
    Failure {
        /// Parsing errors
        errors: Vec<String>,
        /// Warnings encountered
        warnings: Vec<String>,
    },
    /// Represents a successful validation call
    Success {
        /// Errors from any issues found during validation
        validation_errors: Vec<ValidationError>,
        /// Warnings from any issues found during validation
        validation_warnings: Vec<ValidationWarning>,
        /// Other warnings, not associated with specific policies.
        /// For instance, warnings about your schema itself.
        other_warnings: Vec<String>,
    },
}

/// What a validation answer is, mathematically.
pub enum AnswerView {
    Failure { errors: Seq<Seq<char>>, warnings: Seq<Seq<char>> },
    Success {
        validation_errors: Seq<IssueView>,
        validation_warnings: Seq<IssueView>,
        other_warnings: Seq<Seq<char>>,
    },
}

impl View for ValidationAnswer {
    type V = AnswerView;

    open spec fn view(&self) -> AnswerView {
        match self {
            ValidationAnswer::Failure { errors, warnings } => AnswerView::Failure {
                errors: strings_view(errors@),
                warnings: strings_view(warnings@),
            },
            ValidationAnswer::Success { validation_errors, validation_warnings, other_warnings } =>
                AnswerView::Success {
                validation_errors: validation_errors@.map_values(|e: ValidationError| e@),
                validation_warnings: validation_warnings@.map_values(|w: ValidationWarning| w@),
                other_warnings: strings_view(other_warnings@),
            },
        }
    }
}

} // verus!
