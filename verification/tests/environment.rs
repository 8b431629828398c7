use ci_detective::Environment;
use std::path::PathBuf;

fn pairs(list: &[(&str, &str)]) -> Vec<(String, String)> {
    list.iter().map(|(name, value)| (name.to_string(), value.to_string())).collect()
}

#[test]
fn lookup_finds_what_is_set() {
    let env = Environment::from_pairs(pairs(&[("CI", "true"), ("HOME", "/home/ci")]));
    assert_eq!(env.lookup("CI"), Some("true".to_string()));
    assert_eq!(env.lookup("HOME"), Some("/home/ci".to_string()));
}

#[test]
fn lookup_is_absent_for_unset_and_for_empty() {
    let env = Environment::from_pairs(pairs(&[("EMPTY", ""), ("CI", "true")]));
    assert_eq!(env.lookup("EMPTY"), None);
    assert_eq!(env.lookup("UNSET"), None);
    assert_eq!(Environment::new().lookup("CI"), None);
}

#[test]
fn lookup_takes_names_exactly() {
    let env = Environment::from_pairs(pairs(&[("CI", "true")]));
    assert_eq!(env.lookup("ci"), None);
    assert_eq!(env.lookup("CI "), None);
    assert_eq!(env.lookup("C"), None);
}

#[test]
fn the_last_binding_of_a_name_holds() {
    let env = Environment::from_pairs(pairs(&[("CI", "true"), ("CI", "false")]));
    assert_eq!(env.lookup("CI"), Some("false".to_string()));
    let mut env = Environment::new();
    env.set("CI", "true");
    env.set("OTHER", "x");
    env.set("CI", "");
    assert_eq!(env.lookup("CI"), None);
    assert_eq!(env.lookup("OTHER"), Some("x".to_string()));
    env.set("CI", "again");
    assert_eq!(env.lookup("CI"), Some("again".to_string()));
}

#[test]
fn holds_compares_the_whole_value() {
    let env = Environment::from_pairs(pairs(&[("CI", "true"), ("EMPTY", "")]));
    assert!(env.holds("CI", "true"));
    assert!(!env.holds("CI", "True"));
    assert!(!env.holds("CI", "tru"));
    assert!(!env.holds("UNSET", "true"));
    assert!(!env.holds("EMPTY", ""));
}

#[test]
fn lookup_unless_drops_the_sentinel_only() {
    let env = Environment::from_pairs(pairs(&[("A", "false"), ("B", "123"), ("C", "False"), ("D", "")]));
    assert_eq!(env.lookup_unless("A", "false"), None);
    assert_eq!(env.lookup_unless("B", "false"), Some("123".to_string()));
    assert_eq!(env.lookup_unless("C", "false"), Some("False".to_string()));
    assert_eq!(env.lookup_unless("D", "false"), None);
    assert_eq!(env.lookup_unless("E", "false"), None);
}

#[test]
fn typed_lookups_parse_the_value() {
    let env = Environment::from_pairs(pairs(&[
        ("N", "42"),
        ("BIG", "4294967296"),
        ("NEG", "-1"),
        ("T", "true"),
        ("F", "false"),
        ("P", "/var/lib/ci"),
    ]));
    assert_eq!(env.number("N"), Some(42));
    assert_eq!(env.number("BIG"), None);
    assert_eq!(env.number("NEG"), None);
    assert_eq!(env.number("UNSET"), None);
    assert_eq!(env.size("N"), Some(42));
    assert_eq!(env.size("BIG"), "4294967296".parse::<usize>().ok());
    assert_eq!(env.flag("T"), Some(true));
    assert_eq!(env.flag("F"), Some(false));
    assert_eq!(env.flag("N"), None);
    assert_eq!(env.flag("UNSET"), None);
    assert_eq!(env.path("P"), Some(PathBuf::from("/var/lib/ci")));
    assert_eq!(env.path("N"), Some(PathBuf::from("42")));
    assert_eq!(env.path("UNSET"), None);
}
