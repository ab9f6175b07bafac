use dynenum::SchemaError;
use dynenum::generate_from_text;
use dynenum::load_types_from_str;
use dynenum::parse_schema;

#[test]
fn schema_single_key_parses() {
    let s = parse_schema("information:\n  - email\n  - phone_number\n").unwrap();
    assert_eq!(s.name, "information");
    assert_eq!(s.variants, vec!["email".to_string(), "phone_number".to_string()]);
}

#[test]
fn schema_two_keys_rejected() {
    let r = parse_schema("a:\n  - x\nb:\n  - y\n");
    assert_eq!(r.err(), Some(SchemaError::NotSingleKey));
    assert_eq!(
        SchemaError::NotSingleKey.message(),
        "document must have exactly one top-level key",
    );
}

#[test]
fn schema_zero_keys_rejected() {
    let r = parse_schema("{}\n");
    assert_eq!(r.err(), Some(SchemaError::NotSingleKey));
}

#[test]
fn schema_scalar_value_rejected() {
    let r = parse_schema("types: just_a_scalar\n");
    assert_eq!(r.err(), Some(SchemaError::Malformed));
    assert_eq!(
        SchemaError::Malformed.message(),
        "document is not a mapping of string keys to string sequences",
    );
}

#[test]
fn schema_non_string_entry_rejected() {
    let r = parse_schema("types:\n  - [nested]\n");
    assert_eq!(r.err(), Some(SchemaError::Malformed));
}

#[test]
fn schema_empty_variant_list_rejected() {
    let r = parse_schema("types: []\n");
    assert_eq!(r.err(), Some(SchemaError::EmptyVariants));
    assert_eq!(SchemaError::EmptyVariants.message(), "variant list is empty");
}

#[test]
fn registry_dedups_in_first_occurrence_order() {
    let ts = load_types_from_str("types:\n  - a\n  - b\n  - a\n").unwrap();
    assert_eq!(ts.len(), 2);
    assert_eq!(ts[0].as_str(), "a");
    assert_eq!(ts[1].as_str(), "b");
}

#[test]
fn generator_emits_expected_source() {
    let src = generate_from_text("information:\n  - email\n  - phone_number\n").unwrap();
    let expected = "#[derive(Debug, Clone, PartialEq, Eq, Hash)]\npub enum Information {\n    Email,\n    PhoneNumber,\n}\n\nimpl Information {\n    pub fn as_str(&self) -> &'static str {\n        match self {\n            Information::Email => \"email\",\n            Information::PhoneNumber => \"phone_number\",\n        }\n    }\n\n    pub fn from_str(s: &str) -> Result<Information, &'static str> {\n        match s {\n            \"email\" => Ok(Information::Email),\n            \"phone_number\" => Ok(Information::PhoneNumber),\n            _ => Err(\"unrecognized value\"),\n        }\n    }\n}\n\npub const ALL_INFORMATION: &[&str] = &[\"email\", \"phone_number\"];\n";
    assert_eq!(src, expected);
}

#[test]
fn generator_is_deterministic() {
    let text = "information:\n  - email\n  - phone_number\n  - credential\n  - date\n";
    let a = generate_from_text(text).unwrap();
    let b = generate_from_text(text).unwrap();
    assert_eq!(a, b);
}

#[test]
fn generator_rejects_tag_collision() {
    let r = generate_from_text("types:\n  - phone_number\n  - phoneNumber\n");
    assert_eq!(r.err(), Some(SchemaError::TagCollision));

    let r = generate_from_text("types:\n  - email\n  - email\n");
    assert_eq!(r.err(), Some(SchemaError::TagCollision));
    assert_eq!(
        SchemaError::TagCollision.message(),
        "two variants normalize to the same tag identifier",
    );
}
