//! The static generator: from a validated schema to the source text of a
//! closed enumeration with render, parse and listing operations.
//!
//! The emitted text defines a tagged enumeration with one tag per variant
//! (the tag identifier is the Pascal-case transform of the variant string),
//! a render operation from tag to exact canonical string, a parse operation
//! from canonical string to tag that refuses any other input, and a constant
//! listing all canonical strings in declaration order. Generation is a pure
//! function of the schema, so identical schemas yield identical source text;
//! two variants that normalize to the same tag identifier are rejected
//! before emission.

use vstd::prelude::*;
use vstd::string::StringExecFns;

use convert_case::Casing;

use crate::error::SchemaError;
use crate::schema::Schema;
use crate::schema::parse_schema;
use crate::schema::yaml_string_map_of;

verus! {

/// What `convert_case` makes of a string in Pascal case: the tag identifier
/// transform. The result depends on the input characters alone.
pub uninterp spec fn pascal_of(s: Seq<char>) -> Seq<char>;

/// What `convert_case` makes of a string in upper-snake case: the transform
/// behind the listing constant's name. The result depends on the input
/// characters alone.
pub uninterp spec fn upper_snake_of(s: Seq<char>) -> Seq<char>;

/// Relies on `convert_case::Casing::to_case` with `Case::Pascal`: a pure
/// case transform of the input string.
#[verifier::external_body]
fn to_pascal(s: &str) -> (r: String)
    ensures
        r@ == pascal_of(s@),
{
    s.to_case(convert_case::Case::Pascal)
}

/// Relies on `convert_case::Casing::to_case` with `Case::UpperSnake`: a pure
/// case transform of the input string.
#[verifier::external_body]
fn to_upper_snake(s: &str) -> (r: String)
    ensures
        r@ == upper_snake_of(s@),
{
    s.to_case(convert_case::Case::UpperSnake)
}

/// The tag identifiers of a variant list, position by position.
pub open spec fn tags_of(canons: Seq<Seq<char>>) -> Seq<Seq<char>> {
    canons.map_values(|c: Seq<char>| pascal_of(c))
}

/// The body lines of the emitted enumeration, one tag per line, for the
/// first `i` tags.
pub open spec fn enum_body(tags: Seq<Seq<char>>, i: int) -> Seq<char>
    decreases i,
{
    if i <= 0 {
        Seq::empty()
    } else {
        enum_body(tags, i - 1) + "    "@ + tags[i - 1] + ",\n"@
    }
}

/// The match arms of the emitted render operation, tag to canonical string,
/// for the first `i` variants.
pub open spec fn render_arms(
    enum_name: Seq<char>,
    tags: Seq<Seq<char>>,
    canons: Seq<Seq<char>>,
    i: int,
) -> Seq<char>
    decreases i,
{
    if i <= 0 {
        Seq::empty()
    } else {
        render_arms(enum_name, tags, canons, i - 1) + "            "@ + enum_name + "::"@
            + tags[i - 1] + " => \""@ + canons[i - 1] + "\",\n"@
    }
}

/// The match arms of the emitted parse operation, canonical string to tag,
/// for the first `i` variants.
pub open spec fn parse_arms(
    enum_name: Seq<char>,
    tags: Seq<Seq<char>>,
    canons: Seq<Seq<char>>,
    i: int,
) -> Seq<char>
    decreases i,
{
    if i <= 0 {
        Seq::empty()
    } else {
        parse_arms(enum_name, tags, canons, i - 1) + "            \""@ + canons[i - 1]
            + "\" => Ok("@ + enum_name + "::"@ + tags[i - 1] + "),\n"@
    }
}

/// The items of the emitted listing constant: the first `i` canonical
/// strings, quoted, separated by commas, in declaration order.
pub open spec fn listing_items(canons: Seq<Seq<char>>, i: int) -> Seq<char>
    decreases i,
{
    if i <= 0 {
        Seq::empty()
    } else if i == 1 {
        "\""@ + canons[0] + "\""@
    } else {
        listing_items(canons, i - 1) + ", \""@ + canons[i - 1] + "\""@
    }
}

/// The whole emitted source text for an enumeration name, a listing constant
/// name, and the variants' tag identifiers and canonical strings.
pub open spec fn generated_source(
    enum_name: Seq<char>,
    const_name: Seq<char>,
    tags: Seq<Seq<char>>,
    canons: Seq<Seq<char>>,
) -> Seq<char> {
    "#[derive(Debug, Clone, PartialEq, Eq, Hash)]\npub enum "@ + enum_name + " {\n"@ + enum_body(
        tags,
        tags.len() as int,
    ) + "}\n\nimpl "@ + enum_name
        + " {\n    pub fn as_str(&self) -> &'static str {\n        match self {\n"@ + render_arms(
        enum_name,
        tags,
        canons,
        tags.len() as int,
    ) + "        }\n    }\n\n    pub fn from_str(s: &str) -> Result<"@ + enum_name
        + ", &'static str> {\n        match s {\n"@ + parse_arms(
        enum_name,
        tags,
        canons,
        tags.len() as int,
    ) + "            _ => Err(\"unrecognized value\"),\n        }\n    }\n}\n\npub const "@
        + const_name + ": &[&str] = &["@ + listing_items(canons, canons.len() as int) + "];\n"@
}

/// The static generator: emits the source text of the closed enumeration a
/// validated schema describes, or refuses the schema when two variants
/// normalize to the same tag identifier.
pub fn generate_source(schema: &Schema) -> (r: Result<String, SchemaError>)
    requires
        schema.wf(),
    ensures
        (match r {
            Ok(src) => {
                &&& tags_of(schema.variants.deep_view()).no_duplicates()
                &&& src@ == generated_source(
                    pascal_of(schema.name@),
                    "ALL_"@ + upper_snake_of(schema.name@),
                    tags_of(schema.variants.deep_view()),
                    schema.variants.deep_view(),
                )
            },
            Err(SchemaError::TagCollision) => !tags_of(
                schema.variants.deep_view(),
            ).no_duplicates(),
            Err(_) => false,
        }),
{
    let ghost canons = schema.variants.deep_view();
    let ghost tseq = tags_of(canons);
    let n = schema.variants.len();

    let mut tags: Vec<String> = Vec::new();
    for i in 0..n
        invariant
            n == schema.variants@.len(),
            canons == schema.variants.deep_view(),
            tseq == tags_of(canons),
            tags@.len() == i,
            forall|j: int| 0 <= j < i ==> tags@[j]@ == tseq[j],
    {
        tags.push(to_pascal(schema.variants[i].as_str()));
    }

    for i in 0..n
        invariant
            n == schema.variants@.len() == tags@.len(),
            canons == schema.variants.deep_view(),
            tseq == tags_of(canons),
            forall|j: int| 0 <= j < n ==> tags@[j]@ == tseq[j],
            forall|a: int, b: int| 0 <= a < i && a < b < n ==> tseq[a] != tseq[b],
    {
        for j in (i + 1)..n
            invariant
                n == schema.variants@.len() == tags@.len(),
                i < n,
                canons == schema.variants.deep_view(),
                tseq == tags_of(canons),
                forall|k: int| 0 <= k < n ==> tags@[k]@ == tseq[k],
                forall|a: int, b: int| 0 <= a < i && a < b < n ==> tseq[a] != tseq[b],
                forall|b: int| i < b < j ==> tseq[i as int] != tseq[b],
        {
            if tags[i] == tags[j] {
                proof {
                    assert(tseq[i as int] == tseq[j as int]);
                }
                return Err(SchemaError::TagCollision);
            }
        }
    }
    proof {
        assert(tseq.no_duplicates());
    }

    let enum_name = to_pascal(schema.name.as_str());
    let upper = to_upper_snake(schema.name.as_str());
    let mut const_name = "ALL_".to_owned();
    const_name.append(upper.as_str());

    let mut enum_sec = String::new();
    let mut render_sec = String::new();
    let mut parse_sec = String::new();
    for i in 0..n
        invariant
            n == schema.variants@.len() == tags@.len(),
            canons == schema.variants.deep_view(),
            tseq == tags_of(canons),
            forall|j: int| 0 <= j < n ==> tags@[j]@ == tseq[j],
            enum_name@ == pascal_of(schema.name@),
            enum_sec@ == enum_body(tseq, i as int),
            render_sec@ == render_arms(enum_name@, tseq, canons, i as int),
            parse_sec@ == parse_arms(enum_name@, tseq, canons, i as int),
    {
        proof {
            assert(canons[i as int] == schema.variants@[i as int]@);
        }
        enum_sec.append("    ");
        enum_sec.append(tags[i].as_str());
        enum_sec.append(",\n");

        render_sec.append("            ");
        render_sec.append(enum_name.as_str());
        render_sec.append("::");
        render_sec.append(tags[i].as_str());
        render_sec.append(" => \"");
        render_sec.append(schema.variants[i].as_str());
        render_sec.append("\",\n");

        parse_sec.append("            \"");
        parse_sec.append(schema.variants[i].as_str());
        parse_sec.append("\" => Ok(");
        parse_sec.append(enum_name.as_str());
        parse_sec.append("::");
        parse_sec.append(tags[i].as_str());
        parse_sec.append("),\n");
    }

    let mut listing_sec = "\"".to_owned();
    listing_sec.append(schema.variants[0].as_str());
    listing_sec.append("\"");
    proof {
        assert(canons[0] == schema.variants@[0]@);
        assert(listing_sec@ == listing_items(canons, 1));
    }
    for i in 1..n
        invariant
            n == schema.variants@.len(),
            1 <= n,
            canons == schema.variants.deep_view(),
            listing_sec@ == listing_items(canons, i as int),
    {
        proof {
            assert(canons[i as int] == schema.variants@[i as int]@);
        }
        listing_sec.append(", \"");
        listing_sec.append(schema.variants[i].as_str());
        listing_sec.append("\"");
    }

    let mut out = "#[derive(Debug, Clone, PartialEq, Eq, Hash)]\npub enum ".to_owned();
    out.append(enum_name.as_str());
    out.append(" {\n");
    out.append(enum_sec.as_str());
    out.append("}\n\nimpl ");
    out.append(enum_name.as_str());
    out.append(" {\n    pub fn as_str(&self) -> &'static str {\n        match self {\n");
    out.append(render_sec.as_str());
    out.append("        }\n    }\n\n    pub fn from_str(s: &str) -> Result<");
    out.append(enum_name.as_str());
    out.append(", &'static str> {\n        match s {\n");
    out.append(parse_sec.as_str());
    out.append("            _ => Err(\"unrecognized value\"),\n        }\n    }\n}\n\npub const ");
    out.append(const_name.as_str());
    out.append(": &[&str] = &[");
    out.append(listing_sec.as_str());
    out.append("];\n");
    Ok(out)
}

/// The static mode in one step: parses and validates a schema document and
/// emits the generated source text, or reports the first failure.
pub fn generate_from_text(text: &str) -> (r: Result<String, SchemaError>)
    ensures
        (match r {
            Ok(src) => {
                &&& yaml_string_map_of(text@) matches Some(entries)
                &&& entries.len() == 1
                &&& entries[0].1.len() > 0
                &&& tags_of(entries[0].1).no_duplicates()
                &&& src@ == generated_source(
                    pascal_of(entries[0].0),
                    "ALL_"@ + upper_snake_of(entries[0].0),
                    tags_of(entries[0].1),
                    entries[0].1,
                )
            },
            Err(SchemaError::Malformed) => yaml_string_map_of(text@) is None,
            Err(SchemaError::NotSingleKey) => (yaml_string_map_of(text@) matches Some(entries)
                && entries.len() != 1),
            Err(SchemaError::EmptyVariants) => (yaml_string_map_of(text@) matches Some(entries)
                && entries.len() == 1 && entries[0].1.len() == 0),
            Err(SchemaError::TagCollision) => (yaml_string_map_of(text@) matches Some(entries)
                && entries.len() == 1 && entries[0].1.len() > 0 && !tags_of(
                entries[0].1,
            ).no_duplicates()),
        }),
{
    let schema = match parse_schema(text) {
        Ok(s) => s,
        Err(e) => {
            return Err(e);
        },
    };
    generate_source(&schema)
}

} // verus!
