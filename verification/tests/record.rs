use ci_detective::descriptor::{FieldSpec, ValueKind, VendorDescriptor};
use ci_detective::record::{parse, LazyRecord, MissingRequiredField, Resolution, Value};
use ci_detective::Environment;
use std::path::PathBuf;

fn text(s: &str) -> String {
    s.to_string()
}

fn env_of(list: &[(&str, &str)]) -> Environment {
    Environment::from_pairs(list.iter().map(|(n, v)| (text(n), text(v))).collect())
}

fn colours() -> ValueKind {
    ValueKind::Token(vec![text("red"), text("green"), text("blue")])
}

fn sample() -> VendorDescriptor {
    VendorDescriptor::new(
        vec![(text("CI"), text("true"))],
        vec![
            FieldSpec::required("name", "S_NAME", ValueKind::Text),
            FieldSpec::required("number", "S_NUMBER", ValueKind::Unsigned),
            FieldSpec::optional("count", "S_COUNT", ValueKind::Unsigned),
            FieldSpec::optional("dir", "S_DIR", ValueKind::Path),
            FieldSpec::optional("colour", "S_COLOUR", colours()),
            FieldSpec::optional("note", "S_NOTE", ValueKind::Text),
        ],
    )
}

fn missing(field: &str, variable: &str, expected: ValueKind, observed: Option<&str>) -> MissingRequiredField {
    MissingRequiredField {
        field: text(field),
        variable: text(variable),
        expected,
        observed: observed.map(text),
    }
}

#[test]
fn parse_reads_each_kind() {
    assert_eq!(parse(&ValueKind::Text, "hello"), Some(Value::Text(text("hello"))));
    assert_eq!(parse(&ValueKind::Text, "42"), Some(Value::Text(text("42"))));
    assert_eq!(parse(&ValueKind::Unsigned, "42"), Some(Value::Unsigned(42)));
    assert_eq!(parse(&ValueKind::Unsigned, "0"), Some(Value::Unsigned(0)));
    assert_eq!(parse(&ValueKind::Unsigned, "-1"), None);
    assert_eq!(parse(&ValueKind::Unsigned, "abc"), None);
    assert_eq!(parse(&ValueKind::Unsigned, "4294967296"), None);
    assert_eq!(parse(&ValueKind::Size, "153"), Some(Value::Size(153)));
    assert_eq!(parse(&ValueKind::Size, "0"), Some(Value::Size(0)));
    assert_eq!(parse(&ValueKind::Size, "-1"), None);
    assert_eq!(parse(&ValueKind::Size, "abc"), None);
    assert_eq!(
        parse(&ValueKind::Size, "4294967296"),
        "4294967296".parse::<usize>().ok().map(Value::Size)
    );
    assert_eq!(parse(&ValueKind::Size, "340282366920938463463374607431768211456"), None);
    assert_eq!(parse(&ValueKind::truth(), "true"), Some(Value::Token(0)));
    assert_eq!(parse(&ValueKind::truth(), "false"), Some(Value::Token(1)));
    assert_eq!(parse(&ValueKind::truth(), "True"), None);
    assert_eq!(parse(&ValueKind::Path, "/tmp/x y"), Some(Value::Path(PathBuf::from("/tmp/x y"))));
    assert_eq!(parse(&colours(), "red"), Some(Value::Token(0)));
    assert_eq!(parse(&colours(), "blue"), Some(Value::Token(2)));
    assert_eq!(parse(&colours(), "Blue"), None);
    assert_eq!(parse(&colours(), "purple"), None);
    assert_eq!(parse(&ValueKind::Token(Vec::new()), "red"), None);
}

#[test]
fn fresh_record_has_nothing_resolved() {
    let record = LazyRecord::new(sample());
    for i in 0..6 {
        assert!(!record.is_resolved(i));
    }
    assert_eq!(record.descriptor(), &sample());
}

#[test]
fn lazy_looks_at_the_gate_only() {
    assert!(LazyRecord::lazy(sample(), &env_of(&[("CI", "true")])).is_some());
    assert!(LazyRecord::lazy(sample(), &env_of(&[("CI", "false"), ("S_NAME", "n"), ("S_NUMBER", "1")])).is_none());
    assert!(LazyRecord::lazy(sample(), &env_of(&[])).is_none());
}

#[test]
fn resolve_gives_the_value_of_the_variable() {
    let env = env_of(&[
        ("S_NAME", "acme"),
        ("S_NUMBER", "42"),
        ("S_DIR", "/work"),
        ("S_COLOUR", "green"),
    ]);
    let mut record = LazyRecord::new(sample());
    assert_eq!(record.resolve("name", &env), Some(Resolution::Value(Value::Text(text("acme")))));
    assert_eq!(record.resolve("number", &env), Some(Resolution::Value(Value::Unsigned(42))));
    assert_eq!(record.resolve("count", &env), Some(Resolution::Missing));
    assert_eq!(record.resolve("dir", &env), Some(Resolution::Value(Value::Path(PathBuf::from("/work")))));
    assert_eq!(record.resolve("colour", &env), Some(Resolution::Value(Value::Token(1))));
    assert_eq!(record.resolve("note", &env), Some(Resolution::Missing));
    for i in 0..6 {
        assert!(record.is_resolved(i));
    }
}

#[test]
fn resolve_of_an_unknown_name_changes_nothing() {
    let env = env_of(&[("S_NAME", "acme")]);
    let mut record = LazyRecord::new(sample());
    assert_eq!(record.resolve("nope", &env), None);
    for i in 0..6 {
        assert!(!record.is_resolved(i));
    }
}

#[test]
fn resolve_touches_one_slot_only() {
    let env = env_of(&[("S_NAME", "acme"), ("S_NUMBER", "42")]);
    let mut record = LazyRecord::new(sample());
    let _ = record.resolve_at(1, &env);
    assert!(record.is_resolved(1));
    for i in [0usize, 2, 3, 4, 5] {
        assert!(!record.is_resolved(i));
    }
}

#[test]
fn resolved_value_is_kept_when_the_environment_changes() {
    let first = env_of(&[("S_NAME", "acme"), ("S_COUNT", "7")]);
    let second = env_of(&[("S_NAME", "other"), ("S_COUNT", "8")]);
    let mut record = LazyRecord::new(sample());
    assert_eq!(record.resolve("name", &first), Some(Resolution::Value(Value::Text(text("acme")))));
    assert_eq!(record.resolve("count", &first), Some(Resolution::Value(Value::Unsigned(7))));
    assert_eq!(record.resolve("name", &second), Some(Resolution::Value(Value::Text(text("acme")))));
    assert_eq!(record.resolve("count", &second), Some(Resolution::Value(Value::Unsigned(7))));
    assert_eq!(record.resolve("name", &env_of(&[])), Some(Resolution::Value(Value::Text(text("acme")))));
}

#[test]
fn absent_optional_field_stays_absent() {
    let first = env_of(&[]);
    let second = env_of(&[("S_COUNT", "8"), ("S_NOTE", "late")]);
    let mut record = LazyRecord::new(sample());
    assert_eq!(record.resolve("count", &first), Some(Resolution::Missing));
    assert_eq!(record.resolve("note", &first), Some(Resolution::Missing));
    assert!(record.is_resolved(2));
    assert!(record.is_resolved(5));
    assert_eq!(record.resolve("count", &second), Some(Resolution::Missing));
    assert_eq!(record.resolve("note", &second), Some(Resolution::Missing));
}

#[test]
fn optional_field_that_does_not_parse_is_absent() {
    let env = env_of(&[("S_COUNT", "-1"), ("S_COLOUR", "purple")]);
    let mut record = LazyRecord::new(sample());
    assert_eq!(record.resolve("count", &env), Some(Resolution::Missing));
    assert_eq!(record.resolve("colour", &env), Some(Resolution::Missing));
    let env = env_of(&[("S_COUNT", "abc")]);
    let mut record = LazyRecord::new(sample());
    assert_eq!(record.resolve("count", &env), Some(Resolution::Missing));
    let env = env_of(&[("S_COUNT", "0")]);
    let mut record = LazyRecord::new(sample());
    assert_eq!(record.resolve("count", &env), Some(Resolution::Value(Value::Unsigned(0))));
}

#[test]
fn required_field_that_is_absent_fails() {
    let env = env_of(&[("S_NUMBER", "1")]);
    let mut record = LazyRecord::new(sample());
    assert_eq!(
        record.resolve("name", &env),
        Some(Resolution::Fatal(missing("name", "S_NAME", ValueKind::Text, None)))
    );
    assert!(!record.is_resolved(0));
}

#[test]
fn required_field_that_does_not_parse_fails() {
    for bad in ["-1", "abc"] {
        let env = env_of(&[("S_NAME", "n"), ("S_NUMBER", bad)]);
        let mut record = LazyRecord::new(sample());
        assert_eq!(
            record.resolve("number", &env),
            Some(Resolution::Fatal(missing("number", "S_NUMBER", ValueKind::Unsigned, Some(bad))))
        );
        assert!(!record.is_resolved(1));
    }
    let env = env_of(&[("S_NUMBER", "0")]);
    let mut record = LazyRecord::new(sample());
    assert_eq!(record.resolve("number", &env), Some(Resolution::Value(Value::Unsigned(0))));
}

#[test]
fn failed_required_field_is_asked_for_again() {
    let mut record = LazyRecord::new(sample());
    assert!(matches!(record.resolve("name", &env_of(&[])), Some(Resolution::Fatal(_))));
    assert_eq!(
        record.resolve("name", &env_of(&[("S_NAME", "late")])),
        Some(Resolution::Value(Value::Text(text("late"))))
    );
}

#[test]
fn other_fields_resolve_beside_a_missing_required_one() {
    let env = env_of(&[("S_NUMBER", "3"), ("S_DIR", "/d")]);
    let mut record = LazyRecord::new(sample());
    assert_eq!(record.resolve("number", &env), Some(Resolution::Value(Value::Unsigned(3))));
    assert_eq!(record.resolve("dir", &env), Some(Resolution::Value(Value::Path(PathBuf::from("/d")))));
    assert_eq!(record.resolve("count", &env), Some(Resolution::Missing));
}

#[test]
fn load_resolves_every_field() {
    let env = env_of(&[("S_NAME", "acme"), ("S_NUMBER", "42"), ("S_COLOUR", "blue")]);
    let mut record = LazyRecord::new(sample());
    assert_eq!(record.load(&env), Ok(()));
    for i in 0..6 {
        assert!(record.is_resolved(i));
    }
    let empty = env_of(&[]);
    assert_eq!(record.resolve("name", &empty), Some(Resolution::Value(Value::Text(text("acme")))));
    assert_eq!(record.resolve("number", &empty), Some(Resolution::Value(Value::Unsigned(42))));
    assert_eq!(record.resolve("count", &empty), Some(Resolution::Missing));
    assert_eq!(record.resolve("dir", &empty), Some(Resolution::Missing));
    assert_eq!(record.resolve("colour", &empty), Some(Resolution::Value(Value::Token(2))));
    assert_eq!(record.resolve("note", &empty), Some(Resolution::Missing));
}

#[test]
fn load_stops_at_the_first_required_field_that_fails() {
    let env = env_of(&[("S_NAME", "acme"), ("S_NUMBER", "many"), ("S_COUNT", "5")]);
    let mut record = LazyRecord::new(sample());
    assert_eq!(
        record.load(&env),
        Err(missing("number", "S_NUMBER", ValueKind::Unsigned, Some("many")))
    );
    assert!(record.is_resolved(0));
    for i in 1..6 {
        assert!(!record.is_resolved(i));
    }
    let mut record = LazyRecord::new(sample());
    assert_eq!(record.load(&env_of(&[])), Err(missing("name", "S_NAME", ValueKind::Text, None)));
    for i in 0..6 {
        assert!(!record.is_resolved(i));
    }
}

#[test]
fn load_keeps_what_was_resolved_before() {
    let mut record = LazyRecord::new(sample());
    assert_eq!(
        record.resolve("name", &env_of(&[("S_NAME", "first")])),
        Some(Resolution::Value(Value::Text(text("first"))))
    );
    assert_eq!(record.load(&env_of(&[("S_NAME", "second"), ("S_NUMBER", "2")])), Ok(()));
    assert_eq!(
        record.resolve("name", &env_of(&[])),
        Some(Resolution::Value(Value::Text(text("first"))))
    );
}

#[test]
fn typed_access_gives_plain_values() {
    let env = env_of(&[("S_NAME", "acme"), ("S_NUMBER", "42"), ("S_DIR", "/w")]);
    let mut record = LazyRecord::new(sample());
    assert_eq!(record.required_text(0, &env), Ok(text("acme")));
    assert_eq!(record.required_unsigned(1, &env), Ok(42));
    assert_eq!(record.optional_unsigned(2, &env), None);
    assert_eq!(record.optional_path(3, &env), Some(PathBuf::from("/w")));
    assert_eq!(record.optional_text(5, &env), None);
    let mut record = LazyRecord::new(sample());
    assert_eq!(
        record.required_unsigned(1, &env_of(&[])),
        Err(missing("number", "S_NUMBER", ValueKind::Unsigned, None))
    );
}

#[test]
fn required_path_gives_the_path_or_the_failure() {
    let d = VendorDescriptor::new(
        vec![(text("CI"), text("true"))],
        vec![FieldSpec::required("dir", "S_DIR", ValueKind::Path)],
    );
    let mut record = LazyRecord::new(d.clone());
    assert_eq!(record.required_path(0, &env_of(&[("S_DIR", "/w")])), Ok(PathBuf::from("/w")));
    let mut record = LazyRecord::new(d);
    assert_eq!(
        record.required_path(0, &env_of(&[])),
        Err(missing("dir", "S_DIR", ValueKind::Path, None))
    );
}

#[test]
fn message_names_variable_type_and_observed_value() {
    assert_eq!(
        missing("build_num", "CIRCLE_BUILD_NUM", ValueKind::Unsigned, None).message(),
        "Environment variable CIRCLE_BUILD_NUM expected to parse to u32 but failed; was absent"
    );
    assert_eq!(
        missing("build_num", "CIRCLE_BUILD_NUM", ValueKind::Unsigned, Some("abc")).message(),
        "Environment variable CIRCLE_BUILD_NUM expected to parse to u32 but failed; was \"abc\""
    );
    assert_eq!(
        missing("name", "S_NAME", ValueKind::Text, None).message(),
        "Environment variable S_NAME expected to parse to String but failed; was absent"
    );
    assert_eq!(
        missing("build_number", "BUILD_NUMBER", ValueKind::Size, Some("-1")).message(),
        "Environment variable BUILD_NUMBER expected to parse to usize but failed; was \"-1\""
    );
    assert_eq!(
        missing("dir", "S_DIR", ValueKind::Path, None).message(),
        "Environment variable S_DIR expected to parse to PathBuf but failed; was absent"
    );
    assert_eq!(
        missing("colour", "S_COLOUR", colours(), Some("purple")).message(),
        "Environment variable S_COLOUR expected to parse to token but failed; was \"purple\""
    );
}

#[test]
fn clone_of_a_record_keeps_its_slots() {
    let env = env_of(&[("S_NAME", "acme"), ("S_DIR", "/work/dir")]);
    let mut record = LazyRecord::new(sample());
    let _ = record.resolve("name", &env);
    let _ = record.resolve("dir", &env);
    let mut copy = record.clone();
    assert!(copy.is_resolved(0));
    assert!(!copy.is_resolved(1));
    assert!(copy.is_resolved(3));
    let empty = env_of(&[]);
    assert_eq!(copy.resolve("name", &empty), Some(Resolution::Value(Value::Text(text("acme")))));
    assert_eq!(
        copy.resolve("dir", &empty),
        Some(Resolution::Value(Value::Path(PathBuf::from("/work/dir"))))
    );
    assert_eq!(Value::Path(PathBuf::from("/a/b")).clone(), Value::Path(PathBuf::from("/a/b")));
}
