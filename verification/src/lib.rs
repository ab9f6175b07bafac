//! Named-constant sets described by a small YAML schema.
//!
//! A schema is a YAML document with exactly one top-level key (the name of an
//! enumeration) mapped to a sequence of scalar strings (its variants). The
//! crate offers two modes over that one data contract:
//!
//! - a *static generator*, which turns a validated schema into Rust source
//!   text defining a closed enumeration with render, parse and listing
//!   operations (see [`generate`]);
//! - a *dynamic registry*, which builds at run time a deduplicated list of
//!   string-backed values with the same operations by convention (see
//!   [`dynamic`]).
//!
//! A first-match dispatch helper ([`matching::match_type`]) works uniformly
//! over the canonical string form of either mode's values.

use vstd::prelude::*;

pub mod dynamic;
pub mod error;
pub mod generate;
pub mod matching;
pub mod schema;
pub mod static_types;

pub use dynamic::Type;
pub use dynamic::load_types_from_str;
pub use error::ParseError;
pub use error::SchemaError;
pub use generate::generate_from_text;
pub use generate::generate_source;
pub use matching::match_type;
pub use schema::Schema;
pub use schema::parse_schema;
pub use static_types::Information;

verus! {

/// Compares two string slices by their character sequences.
pub fn str_eq(a: &str, b: &str) -> (r: bool)
    ensures
        r == (a@ == b@),
{
    let sa: String = a.to_owned();
    let sb: String = b.to_owned();
    sa == sb
}

} // verus!
