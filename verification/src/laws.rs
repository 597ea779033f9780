//! What holds of every answer: the laws that relate an answer to the
//! settings and to the outcomes of parsing and validating.
use vstd::prelude::*;

use crate::answer::{location_view, strings_view, AnswerView, SourceLocation, ValidationAnswer};
use crate::call::{
    components_follow, components_of, PolicySet, Schema, ValidationCall, ValidationEnabled,
    WithWarnings,
};
use crate::validate::{expected_answer, issues_view, Finding, ValidatorReport};

verus! {

/// A call is answered with a failure exactly when its policy set or its
/// schema fails to parse; once both parse, the answer is a success, whatever
/// the settings and whatever the validator reports.
pub proof fn failure_exactly_on_parse_errors<P, S>(
    enabled: ValidationEnabled,
    policies: Result<P, Vec<String>>,
    schema: Result<(S, Vec<String>), String>,
    report: ValidatorReport,
)
    ensures
        (expected_answer(enabled, policies, schema, report) is Failure) <==> (policies is Err
            || schema is Err),
        (expected_answer(enabled, policies, schema, report) is Success) <==> (policies is Ok
            && schema is Ok),
{
}

/// A failure carries no warnings.
pub proof fn failure_has_no_warnings<P, S>(
    enabled: ValidationEnabled,
    policies: Result<P, Vec<String>>,
    schema: Result<(S, Vec<String>), String>,
    report: ValidatorReport,
)
    requires
        expected_answer(enabled, policies, schema, report) is Failure,
    ensures
        expected_answer(enabled, policies, schema, report)->Failure_warnings.len() == 0,
{
}

/// When the policy set does not parse, the failure lists exactly the parse
/// errors, in order, and neither the settings, the schema nor the validator
/// has any say.
pub proof fn policy_parse_errors_passed_on<P, S>(
    errors: Vec<String>,
    enabled1: ValidationEnabled,
    schema1: Result<(S, Vec<String>), String>,
    report1: ValidatorReport,
    enabled2: ValidationEnabled,
    schema2: Result<(S, Vec<String>), String>,
    report2: ValidatorReport,
)
    ensures
        expected_answer(enabled1, Err::<P, Vec<String>>(errors), schema1, report1) == (
        AnswerView::Failure { errors: strings_view(errors@), warnings: Seq::empty() }),
        expected_answer(enabled1, Err::<P, Vec<String>>(errors), schema1, report1)
            == expected_answer(enabled2, Err::<P, Vec<String>>(errors), schema2, report2),
{
}

/// When the policies parse and the schema does not, the failure has exactly
/// one error, the schema's, and neither the settings nor the validator has
/// any say.
pub proof fn schema_error_is_the_only_error<P, S>(
    policies: P,
    error: String,
    enabled1: ValidationEnabled,
    report1: ValidatorReport,
    enabled2: ValidationEnabled,
    report2: ValidatorReport,
)
    ensures
        expected_answer(
            enabled1,
            Ok::<P, Vec<String>>(policies),
            Err::<(S, Vec<String>), String>(error),
            report1,
        ) == (AnswerView::Failure { errors: seq![error@], warnings: Seq::empty() }),
        expected_answer(
            enabled1,
            Ok::<P, Vec<String>>(policies),
            Err::<(S, Vec<String>), String>(error),
            report1,
        ) == expected_answer(
            enabled2,
            Ok::<P, Vec<String>>(policies),
            Err::<(S, Vec<String>), String>(error),
            report2,
        ),
{
}

/// With validation on and both parsed, every error and every warning that
/// the validator reported becomes one record of the answer, in the same
/// order and with the same policy id, source span and message, and the
/// schema's warnings are passed on as the other warnings.
pub proof fn success_reports_every_finding<P, S>(
    policies: P,
    schema: S,
    schema_warnings: Vec<String>,
    report: ValidatorReport,
)
    ensures
        ({
            let answer = expected_answer(
                ValidationEnabled::On,
                Ok::<P, Vec<String>>(policies),
                Ok::<(S, Vec<String>), String>((schema, schema_warnings)),
                report,
            );
            &&& answer is Success
            &&& answer->Success_validation_errors.len() == report.errors@.len()
            &&& answer->Success_validation_warnings.len() == report.warnings@.len()
            &&& answer->Success_other_warnings.len() == schema_warnings@.len()
            &&& forall|i: int|
                0 <= i < report.errors@.len() ==> answer->Success_validation_errors[i] == (
                #[trigger] report.errors@[i].policy_id@,
                report.errors@[i].offset_and_length,
                report.errors@[i].kind@,
            )
            &&& forall|i: int|
                0 <= i < report.warnings@.len() ==> answer->Success_validation_warnings[i] == (
                #[trigger] report.warnings@[i].policy_id@,
                report.warnings@[i].offset_and_length,
                report.warnings@[i].kind@,
            )
            &&& forall|i: int|
                0 <= i < schema_warnings@.len() ==> answer->Success_other_warnings[i]
                    == #[trigger] schema_warnings@[i]@
        }),
{
    issue_views_are_finding_fields(report.errors@);
    issue_views_are_finding_fields(report.warnings@);
    string_views_are_the_strings(schema_warnings@);
}

/// The view of a sequence of findings has one entry per finding, in order,
/// made of the finding's policy id, its span (offset and length, as
/// reported) and its kind.
pub proof fn issue_views_are_finding_fields(findings: Seq<Finding>)
    ensures
        issues_view(findings).len() == findings.len(),
        forall|i: int|
            0 <= i < findings.len() ==> issues_view(findings)[i] == (
            #[trigger] findings[i].policy_id@,
            findings[i].offset_and_length,
            findings[i].kind@,
        ),
{
}

/// The view of a sequence of strings has the characters of each string, in
/// order.
pub proof fn string_views_are_the_strings(strings: Seq<String>)
    ensures
        strings_view(strings).len() == strings.len(),
        forall|i: int| 0 <= i < strings.len() ==> strings_view(strings)[i] == #[trigger] strings[i]@,
{
}

/// An optional source location is seen as its offset and its length, in
/// that order, and a missing one as none.
pub proof fn location_view_is_the_span(l: Option<SourceLocation>)
    ensures
        l is None ==> location_view(l) is None,
        l is Some ==> location_view(l) == Some((l->Some_0@.0, l->Some_0@.1)),
{
}

/// The view of an answer holds, in order, the view of each of its records
/// and the characters of each of its strings.
pub proof fn answer_view_is_its_records(a: ValidationAnswer)
    ensures
        match a {
            ValidationAnswer::Failure { errors, warnings } => {
                &&& a@ is Failure
                &&& a@->Failure_errors.len() == errors@.len()
                &&& a@->Failure_warnings.len() == warnings@.len()
                &&& forall|i: int|
                    0 <= i < errors@.len() ==> a@->Failure_errors[i] == #[trigger] errors@[i]@
                &&& forall|i: int|
                    0 <= i < warnings@.len() ==> a@->Failure_warnings[i] == #[trigger] warnings@[i]@
            },
            ValidationAnswer::Success { validation_errors, validation_warnings, other_warnings } => {
                &&& a@ is Success
                &&& a@->Success_validation_errors.len() == validation_errors@.len()
                &&& a@->Success_validation_warnings.len() == validation_warnings@.len()
                &&& a@->Success_other_warnings.len() == other_warnings@.len()
                &&& forall|i: int|
                    0 <= i < validation_errors@.len() ==> a@->Success_validation_errors[i]
                        == #[trigger] validation_errors@[i]@
                &&& forall|i: int|
                    0 <= i < validation_warnings@.len() ==> a@->Success_validation_warnings[i]
                        == #[trigger] validation_warnings@[i]@
                &&& forall|i: int|
                    0 <= i < other_warnings@.len() ==> a@->Success_other_warnings[i]
                        == #[trigger] other_warnings@[i]@
            },
        },
{
}

/// An answer to a call whose policies and schema parse, with validation on,
/// is a success whose records each carry, in order, the policy id, the span
/// (offset, then length) and the kind of the finding the validator reported.
pub proof fn answer_records_carry_the_findings<P, S>(
    answer: ValidationAnswer,
    policies: P,
    schema: S,
    schema_warnings: Vec<String>,
    report: ValidatorReport,
)
    requires
        answer@ == expected_answer(
            ValidationEnabled::On,
            Ok::<P, Vec<String>>(policies),
            Ok::<(S, Vec<String>), String>((schema, schema_warnings)),
            report,
        ),
    ensures
        answer matches ValidationAnswer::Success { validation_errors, validation_warnings, .. } && {
            &&& validation_errors@.len() == report.errors@.len()
            &&& validation_warnings@.len() == report.warnings@.len()
            &&& forall|i: int|
                0 <= i < report.errors@.len() ==> (#[trigger] validation_errors@[i])@ == (
                report.errors@[i].policy_id@,
                report.errors@[i].offset_and_length,
                report.errors@[i].kind@,
            )
            &&& forall|i: int|
                0 <= i < report.warnings@.len() ==> (#[trigger] validation_warnings@[i])@ == (
                report.warnings@[i].policy_id@,
                report.warnings@[i].offset_and_length,
                report.warnings@[i].kind@,
            )
        },
{
    answer_view_is_its_records(answer);
    success_reports_every_finding(policies, schema, schema_warnings, report);
    if let ValidationAnswer::Success { validation_errors, validation_warnings, .. } = answer {
        assert forall|i: int| 0 <= i < report.errors@.len() implies (
        #[trigger] validation_errors@[i])@ == (
            report.errors@[i].policy_id@,
            report.errors@[i].offset_and_length,
            report.errors@[i].kind@,
        ) by {
            assert(answer@->Success_validation_errors[i] == validation_errors@[i]@);
        }
        assert forall|i: int| 0 <= i < report.warnings@.len() implies (
        #[trigger] validation_warnings@[i])@ == (
            report.warnings@[i].policy_id@,
            report.warnings@[i].offset_and_length,
            report.warnings@[i].kind@,
        ) by {
            assert(answer@->Success_validation_warnings[i] == validation_warnings@[i]@);
        }
    }
}

/// With validation off, no validation is done: once both parse, the answer
/// is a success with no validation errors or warnings, whatever a validator
/// would report, and the schema's warnings are still passed on.
pub proof fn no_validation_when_off<P, S>(
    policies: P,
    schema: S,
    schema_warnings: Vec<String>,
    report1: ValidatorReport,
    report2: ValidatorReport,
)
    ensures
        expected_answer(
            ValidationEnabled::Off,
            Ok::<P, Vec<String>>(policies),
            Ok::<(S, Vec<String>), String>((schema, schema_warnings)),
            report1,
        ) == (AnswerView::Success {
            validation_errors: Seq::empty(),
            validation_warnings: Seq::empty(),
            other_warnings: strings_view(schema_warnings@),
        }),
        expected_answer(
            ValidationEnabled::Off,
            Ok::<P, Vec<String>>(policies),
            Ok::<(S, Vec<String>), String>((schema, schema_warnings)),
            report1,
        ) == expected_answer(
            ValidationEnabled::Off,
            Ok::<P, Vec<String>>(policies),
            Ok::<(S, Vec<String>), String>((schema, schema_warnings)),
            report2,
        ),
{
}

/// The components of a call are determined by the outcomes of parsing its
/// policy set and its schema alone: two calls whose parses come out the same
/// get the same components, whatever their settings.
pub proof fn components_determined_by_parse_outcomes<P, S>(
    r1: WithWarnings<Result<(P, S), Vec<String>>>,
    r2: WithWarnings<Result<(P, S), Vec<String>>>,
    policies: Result<P, Vec<String>>,
    schema: Result<(S, Vec<String>), String>,
)
    requires
        components_follow(r1, policies, schema),
        components_follow(r2, policies, schema),
    ensures
        (r1.t is Ok) <==> (r2.t is Ok),
        r1.t is Ok ==> r1.t->Ok_0 == r2.t->Ok_0,
        r1.t is Err ==> r1.t->Err_0@ == r2.t->Err_0@,
        r1.warnings@ == r2.warnings@,
{
    if r1.t is Err && policies is Err {
        assert(r1.warnings@ =~= r2.warnings@);
    }
    if r1.t is Err && policies is Ok {
        assert(r1.warnings@ =~= r2.warnings@);
    }
}

/// Two calls with the same policy set and the same schema, whatever their
/// settings, get the same components from `get_components` when their parsers
/// give one outcome for one input.
pub proof fn equal_calls_give_equal_components<P, S, FP, FS>(
    c1: ValidationCall,
    c2: ValidationCall,
    parse_policies: FP,
    parse_schema: FS,
    r1: WithWarnings<Result<(P, S), Vec<String>>>,
    r2: WithWarnings<Result<(P, S), Vec<String>>>,
) where
    FP: FnOnce(PolicySet) -> Result<P, Vec<String>>,
    FS: FnOnce(Schema) -> Result<(S, Vec<String>), String>,

    requires
        c1.policy_set_value() == c2.policy_set_value(),
        c1.schema_value() == c2.schema_value(),
        forall|a: Result<P, Vec<String>>, b: Result<P, Vec<String>>|
            #![trigger call_ensures(parse_policies, (c1.policy_set_value(),), a), call_ensures(parse_policies, (c1.policy_set_value(),), b)]
            call_ensures(parse_policies, (c1.policy_set_value(),), a) && call_ensures(
                parse_policies,
                (c1.policy_set_value(),),
                b,
            ) ==> a == b,
        forall|a: Result<(S, Vec<String>), String>, b: Result<(S, Vec<String>), String>|
            #![trigger call_ensures(parse_schema, (c1.schema_value(),), a), call_ensures(parse_schema, (c1.schema_value(),), b)]
            call_ensures(parse_schema, (c1.schema_value(),), a) && call_ensures(
                parse_schema,
                (c1.schema_value(),),
                b,
            ) ==> a == b,
        components_of(c1.policy_set_value(), c1.schema_value(), parse_policies, parse_schema, r1),
        components_of(c2.policy_set_value(), c2.schema_value(), parse_policies, parse_schema, r2),
    ensures
        (r1.t is Ok) <==> (r2.t is Ok),
        r1.t is Ok ==> r1.t->Ok_0 == r2.t->Ok_0,
        r1.t is Err ==> r1.t->Err_0@ == r2.t->Err_0@,
        r1.warnings@ == r2.warnings@,
{
    let (p1, s1) = choose|
        policies: Result<P, Vec<String>>,
        parsed_schema: Result<(S, Vec<String>), String>,
    |
        {
            &&& call_ensures(parse_policies, (c1.policy_set_value(),), policies)
            &&& policies is Ok ==> call_ensures(parse_schema, (c1.schema_value(),), parsed_schema)
            &&& #[trigger] components_follow(r1, policies, parsed_schema)
        };
    let (p2, s2) = choose|
        policies: Result<P, Vec<String>>,
        parsed_schema: Result<(S, Vec<String>), String>,
    |
        {
            &&& call_ensures(parse_policies, (c2.policy_set_value(),), policies)
            &&& policies is Ok ==> call_ensures(parse_schema, (c2.schema_value(),), parsed_schema)
            &&& #[trigger] components_follow(r2, policies, parsed_schema)
        };
    assert(p1 == p2);
    if p1 is Ok {
        assert(s1 == s2);
        components_determined_by_parse_outcomes(r1, r2, p1, s1);
    } else {
        assert(components_follow(r2, p1, s1));
        components_determined_by_parse_outcomes(r1, r2, p1, s1);
    }
}

/// The components of a call on each outcome of the parses: the policy
/// parser's errors, in order, with no warnings; the schema parser's one
/// error with no warnings; or the parsed policies and schema with the schema
/// parser's warnings, in order.
pub proof fn components_on_each_outcome<P, S>(
    r: WithWarnings<Result<(P, S), Vec<String>>>,
    policies: Result<P, Vec<String>>,
    schema: Result<(S, Vec<String>), String>,
)
    requires
        components_follow(r, policies, schema),
    ensures
        policies is Err ==> r.t is Err && r.t->Err_0@ == policies->Err_0@ && r.warnings@.len()
            == 0,
        policies is Ok && schema is Err ==> r.t is Err && r.t->Err_0@.len() == 1
            && r.t->Err_0@[0] == schema->Err_0 && r.warnings@.len() == 0,
        policies is Ok && schema is Ok ==> r.t is Ok && r.t->Ok_0.0 == policies->Ok_0
            && r.t->Ok_0.1 == schema->Ok_0.0 && r.warnings@ == schema->Ok_0.1@,
{
}

/// The answer agrees with the components from which it is built: it is a
/// failure exactly when the components hold errors, a failure passes on the
/// components' errors and warnings, and a success passes on the components'
/// warnings as its other warnings, beside the validator's findings when
/// validation is on and beside none when it is off.
pub proof fn answer_agrees_with_components<P, S>(
    enabled: ValidationEnabled,
    components: WithWarnings<Result<(P, S), Vec<String>>>,
    policies: Result<P, Vec<String>>,
    schema: Result<(S, Vec<String>), String>,
    report: ValidatorReport,
)
    requires
        components_follow(components, policies, schema),
    ensures
        (expected_answer(enabled, policies, schema, report) is Failure) <==> (components.t is Err),
        components.t is Err ==> expected_answer(enabled, policies, schema, report) == (
        AnswerView::Failure {
            errors: strings_view(components.t->Err_0@),
            warnings: strings_view(components.warnings@),
        }),
        components.t is Ok && enabled == ValidationEnabled::On ==> expected_answer(
            enabled,
            policies,
            schema,
            report,
        ) == (AnswerView::Success {
            validation_errors: issues_view(report.errors@),
            validation_warnings: issues_view(report.warnings@),
            other_warnings: strings_view(components.warnings@),
        }),
        components.t is Ok && enabled == ValidationEnabled::Off ==> expected_answer(
            enabled,
            policies,
            schema,
            report,
        ) == (AnswerView::Success {
            validation_errors: Seq::empty(),
            validation_warnings: Seq::empty(),
            other_warnings: strings_view(components.warnings@),
        }),
{
    if components.t is Err {
        assert(strings_view(components.warnings@) =~= Seq::empty());
        if policies is Ok {
            assert(strings_view(components.t->Err_0@) =~= seq![schema->Err_0@]);
        }
    }
}

} // verus!
