//! Answering a validation call: parse, validate, and turn what the validator
//! reported into the records of the answer.
use vstd::prelude::*;

use crate::answer::{
    location_view, strings_view, AnswerView, IssueRecord, IssueView, SourceLocation,
    ValidationAnswer, ValidationError, ValidationWarning,
};
use crate::call::{
    components_follow, PolicySet, Schema, ValidationCall, ValidationEnabled, WithWarnings,
};

verus! {

/// One issue that the policy validator reported: the id of the policy it
/// concerns, the offset and length of the policy source it points at, if
/// known, and the text of its kind.
#[derive(Debug)]
pub struct Finding {
    pub policy_id: String,
    pub offset_and_length: Option<(usize, usize)>,
    pub kind: String,
}

impl View for Finding {
    type V = IssueView;

    open spec fn view(&self) -> IssueView {
        (self.policy_id@, self.offset_and_length, self.kind@)
    }
}

/// Everything the policy validator reported about a policy set, errors and
/// warnings each in the order in which it gave them.
#[derive(Debug)]
pub struct ValidatorReport {
    pub errors: Vec<Finding>,
    pub warnings: Vec<Finding>,
}

/// The views of a sequence of findings.
pub open spec fn issues_view(v: Seq<Finding>) -> Seq<IssueView> {
    v.map_values(|f: Finding| f@)
}

/// The answer to a call with validation `enabled`, given the outcome of
/// parsing its policy set, the outcome of parsing its schema (which counts
/// only where the policies parsed), and what the validator reported (which
/// counts only where both parsed and validation is on). With validation off,
/// a call whose policies and schema parse succeeds with no validation errors
/// or warnings.
pub open spec fn expected_answer<P, S>(
    enabled: ValidationEnabled,
    policies: Result<P, Vec<String>>,
    schema: Result<(S, Vec<String>), String>,
    report: ValidatorReport,
) -> AnswerView {
    match policies {
        Err(errs) => AnswerView::Failure { errors: strings_view(errs@), warnings: Seq::empty() },
        Ok(_) => match schema {
            Err(e) => AnswerView::Failure { errors: seq![e@], warnings: Seq::empty() },
            Ok((_, ws)) => match enabled {
                ValidationEnabled::On => AnswerView::Success {
                    validation_errors: issues_view(report.errors@),
                    validation_warnings: issues_view(report.warnings@),
                    other_warnings: strings_view(ws@),
                },
                ValidationEnabled::Off => AnswerView::Success {
                    validation_errors: Seq::empty(),
                    validation_warnings: Seq::empty(),
                    other_warnings: strings_view(ws@),
                },
            },
        },
    }
}

/// The span that a finding points at, as a source location.
fn location_of(offset_and_length: Option<(usize, usize)>) -> (r: Option<SourceLocation>)
    ensures
        location_view(r) == offset_and_length,
{
    match offset_and_length {
        Some((offset, length)) => Some(SourceLocation::new(offset, length)),
        None => None,
    }
}

/// One record for each finding, in the same order.
fn records_of<R: IssueRecord>(findings: Vec<Finding>) -> (r: Vec<R>)
    ensures
        r@.map_values(|x: R| x@) == issues_view(findings@),
{
    let ghost all = findings@;
    let mut r: Vec<R> = Vec::new();
    for f in it: findings.into_iter()
        invariant
            it.seq() == all,
            r@.len() == it.index(),
            r@.map_values(|x: R| x@) == issues_view(all.take(it.index() as int)),
    {
        let ghost i = it.index();
        let Finding { policy_id, offset_and_length, kind } = f;
        let ghost before = r@;
        r.push(R::from_parts(policy_id, location_of(offset_and_length), kind));
        assert(r@ == before.push(r@[i as int]));
        assert(all.take(i + 1) =~= all.take(i as int).push(all[i as int]));
        assert(r@.map_values(|x: R| x@) =~= before.map_values(|x: R| x@).push(all[i as int]@));
    }
    assert(all.take(all.len() as int) == all);
    r
}

/// Parse a policy set and optionally validate it against a provided schema
///
/// The policy set is parsed with `parse_policies`; if that succeeds, the
/// schema is parsed with `parse_schema`; if that succeeds too and the call's
/// settings turn validation on, the parsed policies are validated against
/// the parsed schema with `run_validator`, in the default validation mode. A
/// parse failure is answered with a `Failure`. Otherwise the answer is a
/// `Success`: with validation on, every error and warning that the validator
/// reported becomes one of its records; with validation off, it has none.
/// Either way the schema's own warnings are passed on beside them. The
/// schema parser need only accept the schema once the policy set has parsed,
/// and the validator need only accept the parsed policies and schema, and
/// only when validation is on.
pub fn validate<P, S, FP, FS, FV>(
    call: ValidationCall,
    parse_policies: FP,
    parse_schema: FS,
    run_validator: FV,
) -> (answer: ValidationAnswer) where
    FP: FnOnce(PolicySet) -> Result<P, Vec<String>>,
    FS: FnOnce(Schema) -> Result<(S, Vec<String>), String>,
    FV: FnOnce(P, S) -> ValidatorReport,

    requires
        call_requires(parse_policies, (call.policy_set_value(),)),
        forall|policies: Result<P, Vec<String>>|
            #[trigger] call_ensures(parse_policies, (call.policy_set_value(),), policies)
                && policies is Ok ==> call_requires(parse_schema, (call.schema_value(),)),
        forall|policies: Result<P, Vec<String>>, schema: Result<(S, Vec<String>), String>|
            #![trigger call_ensures(parse_policies, (call.policy_set_value(),), policies), call_ensures(parse_schema, (call.schema_value(),), schema)]
            {
                &&& call_ensures(parse_policies, (call.policy_set_value(),), policies)
                &&& call_ensures(parse_schema, (call.schema_value(),), schema)
                &&& policies is Ok
                &&& schema is Ok
                &&& call.settings_value()@ == ValidationEnabled::On
            } ==> call_requires(run_validator, (policies->Ok_0, schema->Ok_0.0)),
    ensures
        exists|
            policies: Result<P, Vec<String>>,
            schema: Result<(S, Vec<String>), String>,
            report: ValidatorReport,
        |
            {
                &&& call_ensures(parse_policies, (call.policy_set_value(),), policies)
                &&& policies is Ok ==> call_ensures(parse_schema, (call.schema_value(),), schema)
                &&& (policies is Ok && schema is Ok && call.settings_value()@
                    == ValidationEnabled::On) ==> call_ensures(
                    run_validator,
                    (policies->Ok_0, schema->Ok_0.0),
                    report,
                )
                &&& answer@ == #[trigger] expected_answer(
                    call.settings_value()@,
                    policies,
                    schema,
                    report,
                )
            },
{
    let enabled = call.validation_settings().enabled();
    let ghost settings = call.settings_value();
    let components = call.get_components(parse_policies, parse_schema);
    let ghost (policies, schema) = choose|
        policies: Result<P, Vec<String>>,
        schema: Result<(S, Vec<String>), String>,
    |
        {
            &&& call_ensures(parse_policies, (call.policy_set_value(),), policies)
            &&& policies is Ok ==> call_ensures(parse_schema, (call.schema_value(),), schema)
            &&& #[trigger] components_follow(components, policies, schema)
        };
    let WithWarnings { t, warnings } = components;
    match t {
        Ok((policies_parsed, schema_parsed)) => match enabled {
            ValidationEnabled::On => {
                let report = run_validator(policies_parsed, schema_parsed);
                let ghost seen = report;
                let ValidatorReport { errors, warnings: validator_warnings } = report;
                let validation_errors: Vec<ValidationError> = records_of(errors);
                let validation_warnings: Vec<ValidationWarning> = records_of(validator_warnings);
                let answer = ValidationAnswer::Success {
                    validation_errors,
                    validation_warnings,
                    other_warnings: warnings,
                };
                assert(answer@ == expected_answer(settings@, policies, schema, seen));
                answer
            },
            ValidationEnabled::Off => {
                let answer = ValidationAnswer::Success {
                    validation_errors: Vec::new(),
                    validation_warnings: Vec::new(),
                    other_warnings: warnings,
                };
                assert(answer@->Success_validation_errors =~= Seq::empty());
                assert(answer@->Success_validation_warnings =~= Seq::empty());
                assert(answer@ == expected_answer(
                    settings@,
                    policies,
                    schema,
                    arbitrary::<ValidatorReport>(),
                ));
                answer
            },
        },
        Err(errors) => {
            let answer = ValidationAnswer::Failure { errors, warnings };
            assert(answer@->Failure_warnings =~= Seq::empty());
            proof {
                if policies is Ok {
                    assert(strings_view(errors@) =~= seq![schema->Err_0@]);
                }
            }
            assert(answer@ == expected_answer(
                settings@,
                policies,
                schema,
                arbitrary::<ValidatorReport>(),
            ));
            answer
        },
    }
}

} // verus!
