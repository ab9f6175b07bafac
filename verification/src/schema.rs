//! The schema loader: from the text of a YAML document to the validated
//! (name, ordered variant list) pair that both modes consume.

use vstd::prelude::*;

use crate::error::SchemaError;

verus! {

/// What `serde_yaml::from_str` at type `BTreeMap<String, Vec<String>>`
/// yields on a given document text: the key/value entries, in the map's key
/// order, where the document is a mapping from string keys to sequences of
/// scalar strings; and nothing where it is not. The result depends on the
/// text alone.
pub uninterp spec fn yaml_string_map_of(text: Seq<char>) -> Option<Seq<(Seq<char>, Seq<Seq<char>>)>>;

/// The error type of the YAML parser, carried through opaquely.
#[verifier::external_type_specification]
#[verifier::external_body]
pub struct ExYamlError(serde_yaml::Error);

/// Relies on `serde_yaml::from_str` at type `BTreeMap<String, Vec<String>>`:
/// it parses the text as a YAML mapping from string keys to sequences of
/// scalar strings, and fails on any other document shape.
#[verifier::external_body]
fn parse_yaml_string_map(text: &str) -> (r: Result<Vec<(String, Vec<String>)>, serde_yaml::Error>)
    ensures
        (match r {
            Ok(entries) => yaml_string_map_of(text@) == Some(entries.deep_view()),
            Err(_) => yaml_string_map_of(text@) is None,
        }),
{
    let map: std::collections::BTreeMap<String, Vec<String>> = serde_yaml::from_str(text)?;
    Ok(map.into_iter().collect())
}

/// A validated schema: the enumeration name and its variant strings in
/// declaration order.
pub struct Schema {
    /// The single top-level key of the document.
    pub name: String,
    /// The variant strings under that key, in document order.
    pub variants: Vec<String>,
}

impl Schema {
    /// Well-formedness: the variant list is non-empty.
    pub open spec fn wf(self) -> bool {
        self.variants@.len() > 0
    }
}

/// Parses and validates a schema document. The text must be a YAML mapping
/// with exactly one top-level key whose value is a non-empty sequence of
/// scalar strings; each departure from that shape is reported as its own
/// error.
pub fn parse_schema(text: &str) -> (r: Result<Schema, SchemaError>)
    ensures
        (match r {
            Ok(schema) => {
                &&& yaml_string_map_of(text@) matches Some(entries)
                &&& entries.len() == 1
                &&& schema.name@ == entries[0].0
                &&& schema.variants.deep_view() == entries[0].1
                &&& schema.wf()
            },
            Err(SchemaError::Malformed) => yaml_string_map_of(text@) is None,
            Err(SchemaError::NotSingleKey) => (yaml_string_map_of(text@) matches Some(entries)
                && entries.len() != 1),
            Err(SchemaError::EmptyVariants) => (yaml_string_map_of(text@) matches Some(entries)
                && entries.len() == 1 && entries[0].1.len() == 0),
            Err(SchemaError::TagCollision) => false,
        }),
{
    let mut entries = match parse_yaml_string_map(text) {
        Ok(e) => e,
        Err(_) => {
            return Err(SchemaError::Malformed);
        },
    };
    if entries.len() != 1 {
        return Err(SchemaError::NotSingleKey);
    }
    let pair = entries.remove(0);
    if pair.1.len() == 0 {
        return Err(SchemaError::EmptyVariants);
    }
    Ok(Schema { name: pair.0, variants: pair.1 })
}

} // verus!
