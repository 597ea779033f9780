# cedar_validate

The validator entry point for callers in other languages, verified with Verus.

- `src/call.rs`: the input of a call (settings, schema, policy set) and
  `ValidationCall::get_components`, which parses the policy set and then the
  schema.
- `src/answer.rs`: the records of an answer and their views.
- `src/validate.rs`: `validate`, which answers a call (validating only when
  the settings turn validation on), and `expected_answer`,
  the answer as a function of the settings and the parse and validation
  outcomes.
- `src/laws.rs`: laws that relate answers to those outcomes.
- `app/`: the JSON shapes of the call and the answer (serde), and the JSON
  entry points `validate_json` and `validate_json_str`.

The policy parser, schema parser and policy validator are handed to
`validate` by the caller.
