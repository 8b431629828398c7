use ci_detective::descriptor::{FieldSpec, MalformedDescriptor, ValueKind, VendorDescriptor};
use ci_detective::Environment;

fn text(s: &str) -> String {
    s.to_string()
}

fn env_of(list: &[(&str, &str)]) -> Environment {
    Environment::from_pairs(list.iter().map(|(n, v)| (text(n), text(v))).collect())
}

fn sample() -> VendorDescriptor {
    VendorDescriptor::new(
        vec![(text("CI"), text("true")), (text("SAMPLE"), text("yes"))],
        vec![
            FieldSpec::required("name", "SAMPLE_NAME", ValueKind::Text),
            FieldSpec::optional("count", "SAMPLE_COUNT", ValueKind::Unsigned),
            FieldSpec::optional("dir", "SAMPLE_DIR", ValueKind::Path),
        ],
    )
}

#[test]
fn field_constructors_set_what_they_say() {
    let f = FieldSpec::required("name", "SAMPLE_NAME", ValueKind::Text);
    assert_eq!(f.name, "name");
    assert_eq!(f.variable, "SAMPLE_NAME");
    assert_eq!(f.kind, ValueKind::Text);
    assert!(f.required);
    let g = FieldSpec::optional("count", "SAMPLE_COUNT", ValueKind::Unsigned);
    assert_eq!(g.name, "count");
    assert_eq!(g.variable, "SAMPLE_COUNT");
    assert_eq!(g.kind, ValueKind::Unsigned);
    assert!(!g.required);
}

#[test]
fn gate_needs_every_pair() {
    let d = sample();
    assert!(d.matches(&env_of(&[("CI", "true"), ("SAMPLE", "yes")])));
    assert!(d.matches(&env_of(&[("SAMPLE", "yes"), ("OTHER", "x"), ("CI", "true")])));
    assert!(!d.matches(&env_of(&[("CI", "true")])));
    assert!(!d.matches(&env_of(&[("SAMPLE", "yes")])));
    assert!(!d.matches(&env_of(&[])));
}

#[test]
fn gate_fails_when_one_variable_changes() {
    let d = sample();
    let mut env = env_of(&[("CI", "true"), ("SAMPLE", "yes")]);
    assert!(d.matches(&env));
    env.set("SAMPLE", "no");
    assert!(!d.matches(&env));
    env.set("SAMPLE", "yes");
    assert!(d.matches(&env));
    env.set("CI", "True");
    assert!(!d.matches(&env));
    env.set("CI", "");
    assert!(!d.matches(&env));
}

#[test]
fn empty_gate_is_met_by_every_environment() {
    let d = VendorDescriptor::new(Vec::new(), Vec::new());
    assert!(d.matches(&env_of(&[])));
    assert!(d.matches(&env_of(&[("CI", "true")])));
}

#[test]
fn position_finds_the_first_field_of_a_name() {
    let d = sample();
    assert_eq!(d.position("name"), Some(0));
    assert_eq!(d.position("count"), Some(1));
    assert_eq!(d.position("dir"), Some(2));
    assert_eq!(d.position("Name"), None);
    assert_eq!(d.position(""), None);
    let twice = VendorDescriptor::new(
        vec![(text("CI"), text("true"))],
        vec![
            FieldSpec::optional("a", "A", ValueKind::Text),
            FieldSpec::optional("b", "B", ValueKind::Text),
            FieldSpec::optional("a", "C", ValueKind::Text),
        ],
    );
    assert_eq!(twice.position("a"), Some(0));
}

#[test]
fn check_accepts_a_sound_descriptor() {
    assert_eq!(sample().check(), Ok(()));
}

#[test]
fn check_reports_an_empty_gate() {
    let d = VendorDescriptor::new(Vec::new(), vec![FieldSpec::optional("a", "A", ValueKind::Text)]);
    assert_eq!(d.check(), Err(MalformedDescriptor::EmptyGate));
}

#[test]
fn check_reports_the_first_repeated_name() {
    let d = VendorDescriptor::new(
        vec![(text("CI"), text("true"))],
        vec![
            FieldSpec::optional("a", "A", ValueKind::Text),
            FieldSpec::optional("b", "B", ValueKind::Text),
            FieldSpec::optional("c", "C", ValueKind::Text),
            FieldSpec::optional("b", "D", ValueKind::Text),
            FieldSpec::optional("a", "E", ValueKind::Text),
        ],
    );
    assert_eq!(d.check(), Err(MalformedDescriptor::DuplicateField(3)));
}

#[test]
fn check_reports_the_gate_before_the_names() {
    let d = VendorDescriptor::new(
        Vec::new(),
        vec![
            FieldSpec::optional("a", "A", ValueKind::Text),
            FieldSpec::optional("a", "B", ValueKind::Text),
        ],
    );
    assert_eq!(d.check(), Err(MalformedDescriptor::EmptyGate));
}

#[test]
fn clone_of_a_descriptor_is_equal() {
    let d = VendorDescriptor::new(
        vec![(text("CI"), text("true"))],
        vec![FieldSpec::required("t", "T", ValueKind::Token(vec![text("x"), text("y")]))],
    );
    assert_eq!(d.clone(), d);
}

#[test]
fn truth_kind_holds_the_two_tokens() {
    assert_eq!(ValueKind::truth(), ValueKind::Token(vec![text("true"), text("false")]));
}
