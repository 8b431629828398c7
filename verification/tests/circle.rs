use ci_detective::descriptor::ValueKind;
use ci_detective::record::{MissingRequiredField, Resolution, Value};
use ci_detective::{Circle, Environment, CI};
use std::path::PathBuf;

fn text(s: &str) -> String {
    s.to_string()
}

fn env_of(list: &[(&str, &str)]) -> Environment {
    Environment::from_pairs(list.iter().map(|(n, v)| (text(n), text(v))).collect())
}

fn round_trip_env() -> Environment {
    env_of(&[
        ("CI", "true"),
        ("CIRCLECI", "true"),
        ("CIRCLE_PROJECT_USERNAME", "acme"),
        ("CIRCLE_BUILD_NUM", "42"),
    ])
}

#[test]
fn eager_circle_round_trip() {
    let env = round_trip_env();
    let found = CI::eager(&env).unwrap().unwrap();
    let CI::Circle(mut circle) = found else { panic!("not Circle CI") };
    let later = env_of(&[("CIRCLE_BRANCH", "main"), ("CIRCLE_BUILD_NUM", "43")]);
    assert_eq!(circle.project_username(&later), Ok(text("acme")));
    assert_eq!(circle.build_num(&later), Ok(42));
    assert_eq!(circle.branch(&later), None);
}

#[test]
fn circle_descriptor_is_sound() {
    let d = Circle::descriptor();
    assert_eq!(d.check(), Ok(()));
    assert_eq!(d.gate, vec![(text("CI"), text("true")), (text("CIRCLECI"), text("true"))]);
    assert_eq!(d.fields.len(), 23);
    assert_eq!(d.position("home"), Some(0));
    assert_eq!(d.position("build_num"), Some(4));
    assert_eq!(d.position("project_username"), Some(19));
    assert_eq!(d.position("stage"), Some(22));
    assert_eq!(d.fields[4].variable, "CIRCLE_BUILD_NUM");
    assert_eq!(d.fields[4].kind, ValueKind::Unsigned);
    assert!(d.fields[4].required);
    assert_eq!(d.fields[19].variable, "CIRCLE_PROJECT_USERNAME");
    assert!(d.fields[19].required);
    assert_eq!(d.fields[1].variable, "CIRCLE_BRANCH");
    assert!(!d.fields[1].required);
    assert_eq!(d.fields[3].variable, "CIRCLE_NODE_INDEX");
    assert!(!d.fields[3].required);
    assert_eq!(d.fields.iter().filter(|f| f.required).count(), 2);
    assert_eq!(d.fields[18].variable, "CIRCLE_TAG");
    assert!(!d.fields[18].required);
}

#[test]
fn priority_holds_the_circle_descriptor() {
    assert_eq!(CI::priority(), vec![Circle::descriptor()]);
}

#[test]
fn lazy_circle_needs_both_gate_pairs() {
    assert!(Circle::lazy(&env_of(&[("CI", "true"), ("CIRCLECI", "true")])).is_some());
    assert!(Circle::lazy(&env_of(&[("CI", "true")])).is_none());
    assert!(Circle::lazy(&env_of(&[("CIRCLECI", "true")])).is_none());
    assert!(Circle::lazy(&env_of(&[("CI", "true"), ("CIRCLECI", "false")])).is_none());
    assert!(Circle::lazy(&env_of(&[("CI", "True"), ("CIRCLECI", "true")])).is_none());
    assert!(CI::lazy(&env_of(&[("CI", "true"), ("CIRCLECI", "true")])).is_some());
    assert!(CI::lazy(&env_of(&[("CI", "true")])).is_none());
    assert!(CI::lazy(&env_of(&[])).is_none());
}

#[test]
fn lazy_circle_reads_nothing() {
    let circle = Circle::lazy(&round_trip_env()).unwrap();
    for i in 0..23 {
        assert!(!circle.record().is_resolved(i));
    }
}

#[test]
fn eager_circle_fails_without_a_required_field() {
    let env = env_of(&[("CI", "true"), ("CIRCLECI", "true"), ("CIRCLE_BUILD_NUM", "42")]);
    assert_eq!(
        CI::eager(&env).err(),
        Some(MissingRequiredField {
            field: text("project_username"),
            variable: text("CIRCLE_PROJECT_USERNAME"),
            expected: ValueKind::Text,
            observed: None,
        })
    );
    assert_eq!(Circle::eager(&env).err().map(|e| e.field), Some(text("project_username")));
    let Some(CI::Circle(mut circle)) = CI::lazy(&env) else { panic!("not Circle CI") };
    assert_eq!(circle.build_num(&env), Ok(42));
    assert_eq!(circle.branch(&env), None);
    assert!(circle.project_username(&env).is_err());
}

#[test]
fn eager_circle_fails_on_a_number_that_is_none() {
    for bad in ["-1", "abc"] {
        let env = env_of(&[
            ("CI", "true"),
            ("CIRCLECI", "true"),
            ("CIRCLE_PROJECT_USERNAME", "acme"),
            ("CIRCLE_BUILD_NUM", bad),
        ]);
        assert_eq!(
            CI::eager(&env).err(),
            Some(MissingRequiredField {
                field: text("build_num"),
                variable: text("CIRCLE_BUILD_NUM"),
                expected: ValueKind::Unsigned,
                observed: Some(text(bad)),
            })
        );
    }
    let env = env_of(&[
        ("CI", "true"),
        ("CIRCLECI", "true"),
        ("CIRCLE_PROJECT_USERNAME", "acme"),
        ("CIRCLE_BUILD_NUM", "0"),
    ]);
    let Ok(Some(CI::Circle(mut circle))) = CI::eager(&env) else { panic!("not Circle CI") };
    assert_eq!(circle.build_num(&env), Ok(0));
}

#[test]
fn eager_circle_is_nothing_elsewhere() {
    assert!(matches!(CI::eager(&env_of(&[("CIRCLE_BUILD_NUM", "42")])), Ok(None)));
    assert!(matches!(Circle::eager(&env_of(&[("CI", "true")])), Ok(None)));
}

#[test]
fn circle_accessors_read_their_variables() {
    let env = env_of(&[
        ("CI", "true"),
        ("CIRCLECI", "true"),
        ("HOME", "/home/circleci"),
        ("CIRCLE_BRANCH", "main"),
        ("CIRCLE_NODE_TOTAL", "4"),
        ("CIRCLE_NODE_INDEX", "3"),
        ("CIRCLE_BUILD_NUM", "42"),
        ("CIRCLE_PREVIOUS_BUILD_NUM", "41"),
        ("CIRCLE_BUILD_URL", "https://circleci.com/gh/acme/widget/42"),
        ("CIRCLE_SHA1", "0123abc"),
        ("CIRCLE_USERNAME", "alice"),
        ("CIRCLE_JOB", "build"),
        ("CIRCLE_WORKING_DIRECTORY", "~/project"),
        ("CIRCLE_COMPARE_URL", "https://example.test/compare"),
        ("CIRCLE_REPOSITORY_URL", "https://example.test/repo"),
        ("CIRCLE_PR_NUMBER", "7"),
        ("CIRCLE_PR_REPONAME", "widget"),
        ("CIRCLE_PR_USERNAME", "bob"),
        ("CIRCLE_PULL_REQUESTS", "https://example.test/pull/7"),
        ("CIRCLE_PULL_REQUEST", "https://example.test/pull/7"),
        ("CIRCLE_TAG", "v1.0"),
        ("CIRCLE_PROJECT_USERNAME", "acme"),
        ("CIRCLE_PROJECT_REPONAME", "widget"),
        ("CIRCLE_INTERNAL_TASK_DATA", "/tmp/task"),
        ("CIRCLE_STAGE", "build"),
    ]);
    let mut c = Circle::lazy(&env).unwrap();
    assert_eq!(c.home(&env), Some(PathBuf::from("/home/circleci")));
    assert_eq!(c.branch(&env), Some(text("main")));
    assert_eq!(c.node_total(&env), Some(4));
    assert_eq!(c.node_index(&env), Some(3));
    assert_eq!(c.build_num(&env), Ok(42));
    assert_eq!(c.previous_build_num(&env), Some(41));
    assert_eq!(c.build_url(&env), Some(text("https://circleci.com/gh/acme/widget/42")));
    assert_eq!(c.sha1(&env), Some(text("0123abc")));
    assert_eq!(c.username(&env), Some(text("alice")));
    assert_eq!(c.job(&env), Some(text("build")));
    assert_eq!(c.working_directory(&env), Some(PathBuf::from("~/project")));
    assert_eq!(c.compare_url(&env), Some(text("https://example.test/compare")));
    assert_eq!(c.repository_url(&env), Some(text("https://example.test/repo")));
    assert_eq!(c.pr_number(&env), Some(7));
    assert_eq!(c.pr_reponame(&env), Some(text("widget")));
    assert_eq!(c.pr_username(&env), Some(text("bob")));
    assert_eq!(c.pull_requests(&env), Some(text("https://example.test/pull/7")));
    assert_eq!(c.pull_request(&env), Some(text("https://example.test/pull/7")));
    assert_eq!(c.tag(&env), Some(text("v1.0")));
    assert_eq!(c.project_username(&env), Ok(text("acme")));
    assert_eq!(c.project_reponame(&env), Some(text("widget")));
    assert_eq!(c.internal_task_data(&env), Some(PathBuf::from("/tmp/task")));
    assert_eq!(c.stage(&env), Some(text("build")));
}

#[test]
fn circle_accessors_keep_their_first_answer() {
    let first = env_of(&[("CI", "true"), ("CIRCLECI", "true"), ("CIRCLE_BRANCH", "main")]);
    let second = env_of(&[("CIRCLE_BRANCH", "other"), ("CIRCLE_TAG", "v2")]);
    let mut c = Circle::lazy(&first).unwrap();
    assert_eq!(c.branch(&first), Some(text("main")));
    assert_eq!(c.tag(&first), None);
    assert_eq!(c.branch(&second), Some(text("main")));
    assert_eq!(c.tag(&second), None);
    assert_eq!(c.pr_number(&second), None);
}

#[test]
fn load_of_circle_reads_every_field() {
    let env = round_trip_env();
    let mut c = Circle::lazy(&env).unwrap();
    assert_eq!(c.load(&env), Ok(()));
    for i in 0..23 {
        assert!(c.record().is_resolved(i));
    }
    let mut c = Circle::lazy(&env).unwrap();
    assert!(c.load(&env_of(&[])).is_err());
}

#[test]
fn record_of_circle_answers_by_name() {
    let env = round_trip_env();
    let c = Circle::eager(&env).unwrap().unwrap();
    let mut record = c.record().clone();
    let empty = env_of(&[]);
    assert_eq!(record.resolve("project_username", &empty), Some(Resolution::Value(Value::Text(text("acme")))));
    assert_eq!(record.resolve("build_num", &empty), Some(Resolution::Value(Value::Unsigned(42))));
    assert_eq!(record.resolve("branch", &empty), Some(Resolution::Missing));
    let again = Circle::from_record(record);
    assert!(again.record().is_resolved(19));
}

#[test]
fn clone_of_a_detection_keeps_its_answers() {
    let env = round_trip_env();
    let found = CI::eager(&env).unwrap().unwrap();
    let CI::Circle(mut copy) = found.clone() else { panic!("not Circle CI") };
    assert_eq!(copy.build_num(&env_of(&[])), Ok(42));
}
