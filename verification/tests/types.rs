use std::collections::HashSet;

use dynenum::Type;
use dynenum::load_types_from_str;
use dynenum::match_type;

#[test]
fn test_type_traits() {
    let a = Type("email".to_string());
    let b = Type("email".to_string());
    let c = Type("phone".to_string());
    assert_eq!(a, b);
    assert_ne!(a, c);
    let mut set = HashSet::new();
    set.insert(a.clone());
    assert!(set.contains(&b));
    assert_eq!(a.render(), "email");
    assert_eq!(format!("{:?}", a), "Type(\"email\")");
    let a2 = a.clone();
    assert_eq!(a, a2);
}

#[test]
fn test_match_type_macro() {
    let t = Type("email".to_string());
    let cases = vec![("email".to_string(), true), ("phone".to_string(), false)];
    let called = match_type(t.as_str(), cases, Some(false));
    assert!(called);

    let t = Type("unknown".to_string());
    let cases = vec![("email".to_string(), false), ("phone".to_string(), false)];
    let default_called = match_type(t.as_str(), cases, Some(true));
    assert!(default_called);
}

#[test]
fn test_load_types_from_yaml() {
    let yaml = "types:\n  - email\n  - phone\n  - date\n";
    let set: HashSet<Type> = load_types_from_str(yaml).unwrap().into_iter().collect();
    let expected: HashSet<Type> = [
        Type("email".to_string()),
        Type("phone".to_string()),
        Type("date".to_string()),
    ]
    .into_iter()
    .collect();
    assert_eq!(set, expected);
}

#[test]
fn type_construction_round_trip() {
    let t = Type::new("email".to_string());
    let u = Type::new(t.render());
    assert_eq!(u, t);
    let v = Type::from(t.render());
    assert_eq!(v, t);
}

#[test]
fn match_helper_scenarios() {
    let cases = vec![("email".to_string(), "A"), ("phone".to_string(), "B")];
    assert_eq!(match_type("email", cases, Some("F")), "A");

    let cases = vec![("email".to_string(), "A"), ("phone".to_string(), "B")];
    assert_eq!(match_type("fax", cases, Some("F")), "F");
}

#[test]
fn match_helper_takes_first_match() {
    let cases = vec![("x".to_string(), 1), ("x".to_string(), 2)];
    assert_eq!(match_type("x", cases, None), 1);
}
