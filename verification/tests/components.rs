use cedar_validate::{
    PolicySet, Schema, SourceLocation, ValidationCall, ValidationEnabled, ValidationError,
    ValidationSettings, ValidationWarning,
};

fn sample_call() -> ValidationCall {
    ValidationCall::new(
        ValidationSettings::new(ValidationEnabled::Off),
        Schema::Human("namespace".to_string()),
        PolicySet::Concatenated("permit(principal, action, resource);".to_string()),
    )
}

#[test]
fn components_on_policy_failure() {
    let r = sample_call().get_components(
        |_| -> Result<u8, Vec<String>> { Err(vec!["bad policy".to_string()]) },
        |_| -> Result<(u8, Vec<String>), String> { Ok((1, vec!["w".to_string()])) },
    );
    assert_eq!(r.t, Err(vec!["bad policy".to_string()]));
    assert!(r.warnings.is_empty());
}

#[test]
fn components_on_schema_failure() {
    let r = sample_call().get_components(
        |_| -> Result<u8, Vec<String>> { Ok(7) },
        |_| -> Result<(u8, Vec<String>), String> { Err("bad schema".to_string()) },
    );
    assert_eq!(r.t, Err(vec!["bad schema".to_string()]));
    assert!(r.warnings.is_empty());
}

#[test]
fn components_on_success_carry_schema_warnings() {
    let r = sample_call().get_components(
        |_| -> Result<u8, Vec<String>> { Ok(7) },
        |_| -> Result<(u8, Vec<String>), String> { Ok((9, vec!["shadowed type".to_string()])) },
    );
    assert_eq!(r.t, Ok((7, 9)));
    assert_eq!(r.warnings, vec!["shadowed type".to_string()]);
}

#[test]
fn call_parts_round_trip() {
    let (settings, schema, policies) = sample_call().into_parts();
    assert!(matches!(settings.enabled(), ValidationEnabled::Off));
    assert!(matches!(schema, Schema::Human(ref s) if s == "namespace"));
    assert!(matches!(policies, PolicySet::Concatenated(ref s) if s == "permit(principal, action, resource);"));
}

#[test]
fn issue_records_hand_back_their_parts() {
    let e = ValidationError::new("p".to_string(), Some(SourceLocation::new(4, 5)), "msg".to_string());
    let (id, loc, msg) = e.into_parts();
    assert_eq!(id, "p");
    assert_eq!(msg, "msg");
    let loc = loc.unwrap();
    assert_eq!((loc.offset(), loc.length()), (4, 5));

    let w = ValidationWarning::new("q".to_string(), None, "careful".to_string());
    assert_eq!(w.policy_id(), "q");
    assert_eq!(w.warning(), "careful");
    assert!(w.source_location().is_none());
    let (id, loc, msg) = w.into_parts();
    assert_eq!((id.as_str(), loc.is_none(), msg.as_str()), ("q", true, "careful"));
}

#[test]
fn components_do_not_depend_on_settings() {
    let make = |enabled| {
        ValidationCall::new(
            ValidationSettings::new(enabled),
            Schema::Human("namespace".to_string()),
            PolicySet::Concatenated("p".to_string()),
        )
        .get_components(
            |_| -> Result<u8, Vec<String>> { Ok(3) },
            |_| -> Result<(u8, Vec<String>), String> { Ok((4, vec!["w".to_string()])) },
        )
    };
    let on = make(ValidationEnabled::On);
    let off = make(ValidationEnabled::Off);
    assert_eq!(on.t, off.t);
    assert_eq!(on.warnings, off.warnings);
}
