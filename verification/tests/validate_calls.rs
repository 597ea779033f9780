//! Scenarios of validation calls. The policy parser, schema parser and
//! validator are stand-ins: each test hands `validate` the outcome that the
//! Cedar parsers and validator give on the policies and schema it builds
//! (for example, the parse error on "azfghbjknnhbud"). So these tests check
//! how the answer is assembled from those outcomes; they do not check the
//! parsing or the validation themselves, which this crate does not hold.
use std::collections::HashMap;

use cedar_validate::{
    validate, Finding, PolicySet, Schema, ValidationAnswer, ValidationCall, ValidationEnabled,
    ValidationError, ValidationSettings, ValidatorReport,
};

/// The parsed form of a policy set in these tests: the policy ids.
type Parsed = Vec<String>;

fn json_schema(text: &str) -> Schema {
    Schema::Json(serde_json::from_str(text).unwrap())
}

fn policy_map(entries: &[(&str, &str)]) -> PolicySet {
    let mut m = HashMap::new();
    for (id, text) in entries {
        m.insert(id.to_string(), text.to_string());
    }
    PolicySet::ById(m)
}

fn call(schema: Schema, policy_set: PolicySet) -> ValidationCall {
    ValidationCall::new(ValidationSettings::default(), schema, policy_set)
}

fn finding(policy_id: &str, span: Option<(usize, usize)>, kind: &str) -> Finding {
    Finding { policy_id: policy_id.to_string(), offset_and_length: span, kind: kind.to_string() }
}

fn no_findings() -> ValidatorReport {
    ValidatorReport { errors: vec![], warnings: vec![] }
}

/// Answers `call` with stand-in parsers and a validator that give the
/// outcomes passed in.
fn answer_with(
    call: ValidationCall,
    policies: Result<Parsed, Vec<String>>,
    schema: Result<((), Vec<String>), String>,
    report: ValidatorReport,
) -> ValidationAnswer {
    validate(call, move |_| policies, move |_| schema, move |_: Parsed, _: ()| report)
}

fn validation_errors(answer: ValidationAnswer) -> Vec<ValidationError> {
    match answer {
        ValidationAnswer::Success { validation_errors, .. } => validation_errors,
        other => panic!("expected a success, got {other:?}"),
    }
}

fn failure_errors(answer: ValidationAnswer) -> (Vec<String>, Vec<String>) {
    match answer {
        ValidationAnswer::Failure { errors, warnings } => (errors, warnings),
        other => panic!("expected a failure, got {other:?}"),
    }
}

const PHOTO_SCHEMA: &str = r#"{ "": {
  "entityTypes": {
    "User": { "memberOfTypes": [ "UserGroup" ] },
    "Photo": { "memberOfTypes": [ "Album", "Account" ] },
    "Album": { "memberOfTypes": [ "Album", "Account" ] },
    "Account": { },
    "UserGroup": {}
  },
  "actions": {
    "readOnly": { },
    "readWrite": { },
    "createAlbum": { "appliesTo": { "resourceTypes": [ "Account", "Album" ], "principalTypes": [ "User" ] } },
    "addPhotoToAlbum": { "appliesTo": { "resourceTypes": [ "Album" ], "principalTypes": [ "User" ] } },
    "viewPhoto": { "appliesTo": { "resourceTypes": [ "Photo" ], "principalTypes": [ "User" ] } },
    "viewComments": { "appliesTo": { "resourceTypes": [ "Photo" ], "principalTypes": [ "User" ] } }
  }
}}"#;

const SMALL_SCHEMA: &str = r#"{ "": {
  "entityTypes": {
    "User": { "memberOfTypes": [ ] },
    "Photo": { "memberOfTypes": [ ] }
  },
  "actions": {
    "viewPhoto": { "appliesTo": { "resourceTypes": [ "Photo" ], "principalTypes": [ "User" ] } }
  }
}}"#;

const EMPTY_NAMESPACE_SCHEMA: &str = r#"{ "": { "entityTypes": {}, "actions": {} } }"#;

#[test]
fn test_validate_empty_policy() {
    let c = call(Schema::Json(serde_json::Value::Object(serde_json::Map::new())), policy_map(&[]));
    let answer = answer_with(c, Ok(vec![]), Ok(((), vec![])), no_findings());
    assert_eq!(validation_errors(answer).len(), 0);

    let c = call(Schema::Human(String::new()), policy_map(&[]));
    let answer = answer_with(c, Ok(vec![]), Ok(((), vec![])), no_findings());
    assert_eq!(validation_errors(answer).len(), 0);
}

#[test]
fn test_nontrivial_correct_policy_validates_without_errors() {
    let c = call(
        json_schema(PHOTO_SCHEMA),
        policy_map(&[(
            "policy0",
            "permit(principal in UserGroup::\"alice_friends\", action == Action::\"viewPhoto\", resource);",
        )]),
    );
    let answer = answer_with(c, Ok(vec!["policy0".to_string()]), Ok(((), vec![])), no_findings());
    assert_eq!(validation_errors(answer).len(), 0);
}

#[test]
fn test_policy_with_parse_error_fails_passing_on_errors() {
    let c = call(json_schema(EMPTY_NAMESPACE_SCHEMA), policy_map(&[("policy0", "azfghbjknnhbud")]));
    let parse_errors = vec!["failed to parse policy with id `policy0`: unexpected end of input".to_string()];
    let answer = answer_with(c, Err(parse_errors), Ok(((), vec![])), no_findings());
    let (errors, _) = failure_errors(answer);
    assert!(errors.iter().any(|e| e.contains("unexpected end of input")));
}

#[test]
fn test_semantically_incorrect_policy_fails_with_errors() {
    let c = call(
        json_schema(SMALL_SCHEMA),
        policy_map(&[
            ("policy0", "permit(principal == Photo::\"photo.jpg\", action == Action::\"viewPhoto\", resource == User::\"alice\");"),
            ("policy1", "permit(principal == Photo::\"photo2.jpg\", action == Action::\"viewPhoto\", resource == User::\"alice2\");"),
        ]),
    );
    let report = ValidatorReport {
        errors: vec![
            finding("policy0", Some((0, 98)), "unable to find an applicable action given the policy scope constraints"),
            finding("policy1", Some((0, 100)), "unable to find an applicable action given the policy scope constraints"),
        ],
        warnings: vec![],
    };
    let answer = answer_with(
        c,
        Ok(vec!["policy0".to_string(), "policy1".to_string()]),
        Ok(((), vec![])),
        report,
    );
    assert_eq!(validation_errors(answer).len(), 2);
}

#[test]
fn test_nontrivial_correct_policy_validates_without_errors_concatenated_policies() {
    let c = call(
        json_schema(PHOTO_SCHEMA),
        PolicySet::Concatenated(
            "permit(principal in UserGroup::\"alice_friends\", action == Action::\"viewPhoto\", resource);"
                .to_string(),
        ),
    );
    let answer = answer_with(c, Ok(vec!["policy0".to_string()]), Ok(((), vec![])), no_findings());
    assert_eq!(validation_errors(answer).len(), 0);
}

#[test]
fn test_policy_with_parse_error_fails_passing_on_errors_concatenated_policies() {
    let c = call(
        json_schema(EMPTY_NAMESPACE_SCHEMA),
        PolicySet::Concatenated("azfghbjknnhbud".to_string()),
    );
    let answer = answer_with(
        c,
        Err(vec!["unexpected end of input".to_string()]),
        Ok(((), vec![])),
        no_findings(),
    );
    let (errors, _) = failure_errors(answer);
    assert!(errors.iter().any(|e| e.contains("unexpected end of input")));
}

#[test]
fn test_semantically_incorrect_policy_fails_with_errors_concatenated_policies() {
    let c = call(
        json_schema(SMALL_SCHEMA),
        PolicySet::Concatenated(
            "forbid(principal, action, resource);permit(principal == Photo::\"photo.jpg\", action == Action::\"viewPhoto\", resource == User::\"alice\");"
                .to_string(),
        ),
    );
    let report = ValidatorReport {
        errors: vec![finding(
            "policy1",
            Some((36, 98)),
            "unable to find an applicable action given the policy scope constraints",
        )],
        warnings: vec![],
    };
    let answer = answer_with(
        c,
        Ok(vec!["policy0".to_string(), "policy1".to_string()]),
        Ok(((), vec![])),
        report,
    );
    assert_eq!(validation_errors(answer).len(), 1);
}

#[test]
fn test_policy_with_parse_error_fails_concatenated_policies() {
    let c = call(
        json_schema(EMPTY_NAMESPACE_SCHEMA),
        PolicySet::Concatenated("permit(principal, action, resource);forbid".to_string()),
    );
    let answer = answer_with(
        c,
        Err(vec!["unexpected end of input".to_string()]),
        Ok(((), vec![])),
        no_findings(),
    );
    let (errors, _) = failure_errors(answer);
    assert!(errors.iter().any(|e| e.contains("unexpected end of input")));
}

#[test]
fn settings_default_to_validation_on() {
    assert!(matches!(ValidationEnabled::default(), ValidationEnabled::On));
    assert!(matches!(ValidationSettings::default().enabled(), ValidationEnabled::On));
    assert!(matches!(ValidationSettings::new(ValidationEnabled::Off).enabled(), ValidationEnabled::Off));
}

#[test]
fn policy_parse_failure_passes_errors_on_and_stops() {
    let c = call(Schema::Human(String::new()), PolicySet::Concatenated("x".to_string()));
    let mut schema_parsed = false;
    let mut validated = false;
    let answer = validate(
        c,
        |_| -> Result<Parsed, Vec<String>> { Err(vec!["first".to_string(), "second".to_string()]) },
        |_| {
            schema_parsed = true;
            Ok(((), vec!["schema warning".to_string()]))
        },
        |_: Parsed, _: ()| {
            validated = true;
            no_findings()
        },
    );
    let (errors, warnings) = failure_errors(answer);
    assert_eq!(errors, vec!["first".to_string(), "second".to_string()]);
    assert!(warnings.is_empty());
    assert!(!schema_parsed);
    assert!(!validated);
}

#[test]
fn schema_parse_failure_gives_one_error_and_skips_validation() {
    let c = call(Schema::Human("entity".to_string()), policy_map(&[]));
    let mut validated = false;
    let answer = validate(
        c,
        |_| -> Result<Parsed, Vec<String>> { Ok(vec![]) },
        |_| -> Result<((), Vec<String>), String> { Err("bad schema".to_string()) },
        |_: Parsed, _: ()| {
            validated = true;
            no_findings()
        },
    );
    let (errors, warnings) = failure_errors(answer);
    assert_eq!(errors, vec!["bad schema".to_string()]);
    assert!(warnings.is_empty());
    assert!(!validated);
}

#[test]
fn success_keeps_every_finding_in_order() {
    let c = call(Schema::Human(String::new()), PolicySet::Concatenated(String::new()));
    let report = ValidatorReport {
        errors: vec![
            finding("p1", Some((3, 7)), "first error"),
            finding("p0", None, "second error"),
        ],
        warnings: vec![finding("p2", Some((0, 1)), "a warning")],
    };
    let answer = answer_with(
        c,
        Ok(vec![]),
        Ok(((), vec!["w1".to_string(), "w2".to_string()])),
        report,
    );
    match answer {
        ValidationAnswer::Success { validation_errors, validation_warnings, other_warnings } => {
            assert_eq!(validation_errors.len(), 2);
            assert_eq!(validation_errors[0].policy_id(), "p1");
            assert_eq!(validation_errors[0].error(), "first error");
            let loc = validation_errors[0].source_location().unwrap();
            assert_eq!((loc.offset(), loc.length()), (3, 7));
            assert_eq!(validation_errors[1].policy_id(), "p0");
            assert_eq!(validation_errors[1].error(), "second error");
            assert!(validation_errors[1].source_location().is_none());
            assert_eq!(validation_warnings.len(), 1);
            assert_eq!(validation_warnings[0].policy_id(), "p2");
            assert_eq!(validation_warnings[0].warning(), "a warning");
            let loc = validation_warnings[0].source_location().unwrap();
            assert_eq!((loc.offset(), loc.length()), (0, 1));
            assert_eq!(other_warnings, vec!["w1".to_string(), "w2".to_string()]);
        }
        other => panic!("expected a success, got {other:?}"),
    }
}

#[test]
fn settings_off_skips_validation() {
    let c = ValidationCall::new(
        ValidationSettings::new(ValidationEnabled::Off),
        Schema::Human(String::new()),
        PolicySet::Concatenated(String::new()),
    );
    let mut validated = false;
    let answer = validate(
        c,
        |_| -> Result<Parsed, Vec<String>> { Ok(vec![]) },
        |_| -> Result<((), Vec<String>), String> { Ok(((), vec!["schema warning".to_string()])) },
        |_: Parsed, _: ()| {
            validated = true;
            ValidatorReport { errors: vec![finding("p", None, "e")], warnings: vec![finding("p", None, "w")] }
        },
    );
    assert!(!validated);
    match answer {
        ValidationAnswer::Success { validation_errors, validation_warnings, other_warnings } => {
            assert!(validation_errors.is_empty());
            assert!(validation_warnings.is_empty());
            assert_eq!(other_warnings, vec!["schema warning".to_string()]);
        }
        other => panic!("expected a success, got {other:?}"),
    }
}

#[test]
fn settings_off_still_reports_parse_errors() {
    let c = ValidationCall::new(
        ValidationSettings::new(ValidationEnabled::Off),
        Schema::Human(String::new()),
        PolicySet::Concatenated("forbid".to_string()),
    );
    let answer = answer_with(
        c,
        Err(vec!["unexpected end of input".to_string()]),
        Ok(((), vec![])),
        no_findings(),
    );
    let (errors, warnings) = failure_errors(answer);
    assert_eq!(errors, vec!["unexpected end of input".to_string()]);
    assert!(warnings.is_empty());
}

#[test]
fn parsers_see_the_call_contents() {
    let c = call(Schema::Human("schema text".to_string()), PolicySet::Concatenated("policy text".to_string()));
    let answer = validate(
        c,
        |ps| -> Result<String, Vec<String>> {
            match ps {
                PolicySet::Concatenated(t) => Ok(t),
                PolicySet::ById(_) => Err(vec!["unexpected".to_string()]),
            }
        },
        |s| -> Result<(String, Vec<String>), String> {
            match s {
                Schema::Human(t) => Ok((t, vec![])),
                Schema::Json(_) => Err("unexpected".to_string()),
            }
        },
        |p: String, s: String| ValidatorReport { errors: vec![finding(&p, None, &s)], warnings: vec![] },
    );
    let errors = validation_errors(answer);
    assert_eq!(errors.len(), 1);
    assert_eq!(errors[0].policy_id(), "policy text");
    assert_eq!(errors[0].error(), "schema text");
}
