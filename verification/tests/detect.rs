use ci_detective::descriptor::{FieldSpec, ValueKind, VendorDescriptor};
use ci_detective::detect::{detect_eager, detect_lazy};
use ci_detective::record::{MissingRequiredField, Resolution, Value};
use ci_detective::Environment;

fn text(s: &str) -> String {
    s.to_string()
}

fn env_of(list: &[(&str, &str)]) -> Environment {
    Environment::from_pairs(list.iter().map(|(n, v)| (text(n), text(v))).collect())
}

fn alpha() -> VendorDescriptor {
    VendorDescriptor::new(
        vec![(text("CI"), text("true")), (text("ALPHA"), text("true"))],
        vec![
            FieldSpec::required("branch", "ALPHA_BRANCH", ValueKind::Text),
            FieldSpec::optional("tag", "ALPHA_TAG", ValueKind::Text),
        ],
    )
}

fn beta() -> VendorDescriptor {
    VendorDescriptor::new(
        vec![(text("CI"), text("true")), (text("BETA"), text("true"))],
        vec![
            FieldSpec::required("build", "BETA_BUILD", ValueKind::Unsigned),
            FieldSpec::optional("pr", "BETA_PR", ValueKind::Unsigned),
        ],
    )
}

fn vendors() -> Vec<VendorDescriptor> {
    vec![alpha(), beta()]
}

#[test]
fn lazy_detection_finds_the_vendor_whose_gate_is_met() {
    let found = detect_lazy(&vendors(), &env_of(&[("CI", "true"), ("BETA", "true")])).unwrap();
    assert_eq!(found.vendor, 1);
    assert_eq!(found.record.descriptor(), &beta());
    assert!(!found.record.is_resolved(0));
    assert!(!found.record.is_resolved(1));
    let found = detect_lazy(&vendors(), &env_of(&[("CI", "true"), ("ALPHA", "true")])).unwrap();
    assert_eq!(found.vendor, 0);
    assert_eq!(found.record.descriptor(), &alpha());
}

#[test]
fn lazy_detection_finds_nothing_without_a_gate() {
    assert!(detect_lazy(&vendors(), &env_of(&[])).is_none());
    assert!(detect_lazy(&vendors(), &env_of(&[("CI", "true")])).is_none());
    assert!(detect_lazy(&vendors(), &env_of(&[("ALPHA", "true"), ("BETA", "true")])).is_none());
    assert!(detect_lazy(&Vec::new(), &env_of(&[("CI", "true")])).is_none());
}

#[test]
fn one_changed_gate_variable_ends_detection() {
    let mut env = env_of(&[("CI", "true"), ("BETA", "true")]);
    assert_eq!(detect_lazy(&vendors(), &env).map(|d| d.vendor), Some(1));
    env.set("BETA", "false");
    assert!(detect_lazy(&vendors(), &env).is_none());
    env.set("BETA", "true");
    env.set("CI", "1");
    assert!(detect_lazy(&vendors(), &env).is_none());
}

#[test]
fn the_earlier_vendor_wins() {
    let env = env_of(&[("CI", "true"), ("ALPHA", "true"), ("BETA", "true"), ("BETA_BUILD", "1")]);
    assert_eq!(detect_lazy(&vendors(), &env).map(|d| d.vendor), Some(0));
    let swapped = vec![beta(), alpha()];
    let found = detect_lazy(&swapped, &env).unwrap();
    assert_eq!(found.vendor, 0);
    assert_eq!(found.record.descriptor(), &beta());
}

#[test]
fn eager_detection_resolves_every_field() {
    let env = env_of(&[("CI", "true"), ("BETA", "true"), ("BETA_BUILD", "17")]);
    let mut found = detect_eager(&vendors(), &env).unwrap().unwrap();
    assert_eq!(found.vendor, 1);
    assert!(found.record.is_resolved(0));
    assert!(found.record.is_resolved(1));
    let empty = env_of(&[]);
    assert_eq!(found.record.resolve("build", &empty), Some(Resolution::Value(Value::Unsigned(17))));
    assert_eq!(found.record.resolve("pr", &empty), Some(Resolution::Missing));
}

#[test]
fn eager_detection_finds_nothing_without_a_gate() {
    assert!(matches!(detect_eager(&vendors(), &env_of(&[("BETA_BUILD", "17")])), Ok(None)));
}

#[test]
fn eager_detection_fails_on_a_missing_required_field() {
    let env = env_of(&[("CI", "true"), ("BETA", "true"), ("BETA_PR", "3")]);
    assert_eq!(
        detect_eager(&vendors(), &env).err(),
        Some(MissingRequiredField {
            field: text("build"),
            variable: text("BETA_BUILD"),
            expected: ValueKind::Unsigned,
            observed: None,
        })
    );
    let mut found = detect_lazy(&vendors(), &env).unwrap();
    assert_eq!(found.vendor, 1);
    assert_eq!(found.record.resolve("pr", &env), Some(Resolution::Value(Value::Unsigned(3))));
}

#[test]
fn eager_detection_fails_for_the_earlier_vendor() {
    let env = env_of(&[("CI", "true"), ("ALPHA", "true"), ("BETA", "true"), ("BETA_BUILD", "1")]);
    assert_eq!(
        detect_eager(&vendors(), &env).err(),
        Some(MissingRequiredField {
            field: text("branch"),
            variable: text("ALPHA_BRANCH"),
            expected: ValueKind::Text,
            observed: None,
        })
    );
}

#[test]
fn eager_detection_bears_absent_optional_fields() {
    let env = env_of(&[("CI", "true"), ("ALPHA", "true"), ("ALPHA_BRANCH", "main")]);
    let mut found = detect_eager(&vendors(), &env).unwrap().unwrap();
    assert_eq!(found.vendor, 0);
    assert_eq!(
        found.record.resolve("tag", &env_of(&[("ALPHA_TAG", "v1")])),
        Some(Resolution::Missing)
    );
    assert_eq!(
        found.record.resolve("branch", &env_of(&[])),
        Some(Resolution::Value(Value::Text(text("main"))))
    );
}
