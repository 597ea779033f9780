//! The input of a validation call, and the first step of answering it: parsing
//! the policy set and the schema.
use std::collections::HashMap;
use vstd::prelude::*;

verus! {

/// Declares `serde_json::Value` to Verus as an opaque type, so that a JSON
/// schema can be carried to the schema parser as it was read. Nothing is
/// claimed of what a value holds; no code here looks inside one.
#[verifier::external_type_specification]
#[verifier::external_body]
pub struct ExJsonValue(serde_json::Value);

/// String enum for validation mode
#[derive(Clone, Copy, Debug)]
pub enum ValidationEnabled {
    /// Setting for which policies will be validated against the schema
    On,
    /// Setting for which no validation will be done
    Off,
}

impl Default for ValidationEnabled {
    fn default() -> (r: Self)
        ensures
            r == ValidationEnabled::On,
    {
        ValidationEnabled::On
    }
}

/// Configuration for the validation call
#[derive(Clone, Copy, Debug)]
pub struct ValidationSettings {
    /// Whether validation is enabled
    enabled: ValidationEnabled,
}

impl View for ValidationSettings {
    type V = ValidationEnabled;

    /// Whether validation is enabled.
    closed spec fn view(&self) -> ValidationEnabled {
        self.enabled
    }
}

impl Default for ValidationSettings {
    fn default() -> (r: Self)
        ensures
            r@ == ValidationEnabled::On,
    {
        ValidationSettings { enabled: ValidationEnabled::default() }
    }
}

impl ValidationSettings {
    /// Settings with validation turned `enabled`.
    pub fn new(enabled: ValidationEnabled) -> (r: Self)
        ensures
            r@ == enabled,
    {
        ValidationSettings { enabled }
    }

    /// Whether validation is enabled.
    pub fn enabled(&self) -> (r: ValidationEnabled)
        ensures
            r == self@,
    {
        self.enabled
    }
}

/// A schema, in one of the two formats that the schema parser reads.
#[derive(Debug)]
pub enum Schema {
    /// A schema in the JSON schema format
    Json(serde_json::Value),
    /// A schema in the human-readable schema format
    Human(String),
}

/// A policy set, written either as one text of concatenated policies or as
/// policy texts keyed by their policy ids.
#[derive(Debug)]
pub enum PolicySet {
    /// Policies in one text, one after another
    Concatenated(String),
    /// Policy texts keyed by policy id
    ById(HashMap<String, String>),
}

/// Struct containing the input data for validation
#[derive(Debug)]
pub struct ValidationCall {
    validation_settings: ValidationSettings,
    schema: Schema,
    policy_set: PolicySet,
}

/// A value together with warnings that were found while producing it.
#[derive(Debug)]
pub struct WithWarnings<T> {
    pub t: T,
    pub warnings: Vec<String>,
}

impl ValidationCall {
    /// The settings of the call.
    pub closed spec fn settings_value(&self) -> ValidationSettings {
        self.validation_settings
    }

    /// The schema of the call.
    pub closed spec fn schema_value(&self) -> Schema {
        self.schema
    }

    /// The policy set of the call.
    pub closed spec fn policy_set_value(&self) -> PolicySet {
        self.policy_set
    }

    /// The call that validates `policy_set` against `schema` with `validation_settings`.
    pub fn new(validation_settings: ValidationSettings, schema: Schema, policy_set: PolicySet) -> (r:
        Self)
        ensures
            r.settings_value() == validation_settings,
            r.schema_value() == schema,
            r.policy_set_value() == policy_set,
    {
        ValidationCall { validation_settings, schema, policy_set }
    }

    /// The settings of the call.
    pub fn validation_settings(&self) -> (r: ValidationSettings)
        ensures
            r == self.settings_value(),
    {
        self.validation_settings
    }

    /// The settings, the schema and the policy set, handed out by value.
    pub fn into_parts(self) -> (r: (ValidationSettings, Schema, PolicySet))
        ensures
            r == (self.settings_value(), self.schema_value(), self.policy_set_value()),
    {
        (self.validation_settings, self.schema, self.policy_set)
    }
}

/// Whether `r` is what the components of a call are, given the outcome of
/// parsing its policy set and, where that succeeded, the outcome of parsing
/// its schema: a policy-set failure passes its errors on with no warnings, a
/// schema failure gives its one error with no warnings, and otherwise the
/// parsed policies and schema come with the schema's warnings.
pub open spec fn components_follow<P, S>(
    r: WithWarnings<Result<(P, S), Vec<String>>>,
    policies: Result<P, Vec<String>>,
    schema: Result<(S, Vec<String>), String>,
) -> bool {
    match policies {
        Err(errs) => r.t == Err::<(P, S), Vec<String>>(errs) && r.warnings@.len() == 0,
        Ok(p) => match schema {
            Err(e) => {
                &&& r.t is Err
                &&& r.t->Err_0@ == seq![e]
                &&& r.warnings@.len() == 0
            },
            Ok((s, ws)) => r.t == Ok::<(P, S), Vec<String>>((p, s)) && r.warnings@ == ws@,
        },
    }
}

/// Whether `r` is what the components of a call with `policy_set` and
/// `schema` can be when they are parsed with `parse_policies` and then, if that
/// succeeded, with `parse_schema`: some outcome of parsing the policy set, and
/// where it succeeded some outcome of parsing the schema, give `r`.
pub open spec fn components_of<P, S, FP, FS>(
    policy_set: PolicySet,
    schema: Schema,
    parse_policies: FP,
    parse_schema: FS,
    r: WithWarnings<Result<(P, S), Vec<String>>>,
) -> bool where
    FP: FnOnce(PolicySet) -> Result<P, Vec<String>>,
    FS: FnOnce(Schema) -> Result<(S, Vec<String>), String>,
 {
    exists|policies: Result<P, Vec<String>>, parsed_schema: Result<(S, Vec<String>), String>|
        {
            &&& call_ensures(parse_policies, (policy_set,), policies)
            &&& policies is Ok ==> call_ensures(parse_schema, (schema,), parsed_schema)
            &&& #[trigger] components_follow(r, policies, parsed_schema)
        }
}

impl ValidationCall {
    /// Parses the policy set with `parse_policies` and then, if that succeeded,
    /// the schema with `parse_schema`. The schema parser need only accept the
    /// schema once the policy set has parsed.
    pub fn get_components<P, S, FP, FS>(self, parse_policies: FP, parse_schema: FS) -> (r:
        WithWarnings<Result<(P, S), Vec<String>>>) where
        FP: FnOnce(PolicySet) -> Result<P, Vec<String>>,
        FS: FnOnce(Schema) -> Result<(S, Vec<String>), String>,

        requires
            call_requires(parse_policies, (self.policy_set_value(),)),
            forall|policies: Result<P, Vec<String>>|
                #[trigger] call_ensures(parse_policies, (self.policy_set_value(),), policies)
                    && policies is Ok ==> call_requires(parse_schema, (self.schema_value(),)),
        ensures
            components_of(
                self.policy_set_value(),
                self.schema_value(),
                parse_policies,
                parse_schema,
                r,
            ),
    {
        let parsed_policies = parse_policies(self.policy_set);
        let policies = match parsed_policies {
            Ok(policies) => policies,
            Err(errs) => {
                let r = WithWarnings { t: Err(errs), warnings: Vec::new() };
                assert(components_follow(r, parsed_policies, arbitrary()));
                return r;
            },
        };
        let parsed_schema = parse_schema(self.schema);
        let r = match parsed_schema {
            Ok((schema, warnings)) => WithWarnings { t: Ok((policies, schema)), warnings },
            Err(e) => {
                let mut errs = Vec::new();
                errs.push(e);
                WithWarnings { t: Err(errs), warnings: Vec::new() }
            },
        };
        assert(components_follow(r, parsed_policies, parsed_schema));
        r
    }
}

} // verus!
