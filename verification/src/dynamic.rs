//! The dynamic registry: string-backed values loaded from a schema at run
//! time.
//!
//! A [`Type`] is a free-form string behaving as an enumeration member by
//! convention: construction never validates membership (a deliberate
//! asymmetry with the static mode's parse operation), rendering is the
//! identity, and equality is string equality.

use vstd::prelude::*;

use vstd::std_specs::cmp::PartialEqSpec;

use crate::error::SchemaError;
use crate::schema::parse_schema;
use crate::schema::yaml_string_map_of;

verus! {

/// A value of the dynamic registry. Its canonical form is the string it
/// carries, and its view is that string's character sequence.
#[derive(Clone, Eq, Hash, Debug)]
pub struct Type(pub String);

impl View for Type {
    type V = Seq<char>;

    open spec fn view(&self) -> Seq<char> {
        self.0@
    }
}

impl PartialEq for Type {
    fn eq(&self, other: &Self) -> bool {
        self.0 == other.0
    }
}

impl vstd::std_specs::cmp::PartialEqSpecImpl for Type {
    open spec fn obeys_eq_spec() -> bool {
        true
    }

    open spec fn eq_spec(&self, other: &Type) -> bool {
        self@ == other@
    }
}

impl From<String> for Type {
    fn from(s: String) -> Type {
        Type(s)
    }
}

impl vstd::std_specs::convert::FromSpecImpl<String> for Type {
    open spec fn obeys_from_spec() -> bool {
        true
    }

    open spec fn from_spec(s: String) -> Type {
        Type(s)
    }
}

impl Type {
    /// Builds a value carrying the given canonical string. Construction
    /// always succeeds: dynamic values match schema content by convention
    /// only.
    pub fn new(s: String) -> (t: Type)
        ensures
            t@ == s@,
    {
        Type(s)
    }

    /// The canonical string form; rendering is the identity in dynamic mode.
    pub fn render(&self) -> (r: String)
        ensures
            r@ == self@,
    {
        self.0.clone()
    }

    /// Borrows the canonical string form.
    pub fn as_str(&self) -> (r: &str)
        ensures
            r@ == self@,
    {
        self.0.as_str()
    }
}

/// Round trip (dynamic mode): a value built from another value's rendered
/// canonical string is equal to that value, equality being string equality.
/// Here `t` stands for the value of some variant string and `u` for
/// `Type::new(t.render())`, whose contracts give `u@ == t@`.
pub proof fn lemma_type_round_trip(t: Type, u: Type)
    requires
        u@ == t@,
    ensures
        u.eq_spec(&t),
        t.eq_spec(&u),
{
}

/// The distinct elements of `s` in order of first occurrence.
pub open spec fn dedup_seq(s: Seq<Seq<char>>) -> Seq<Seq<char>>
    decreases s.len(),
{
    if s.len() == 0 {
        Seq::empty()
    } else {
        let rest = dedup_seq(s.drop_last());
        if rest.contains(s.last()) {
            rest
        } else {
            rest.push(s.last())
        }
    }
}

/// Uniqueness: deduplication keeps exactly the set of strings of the input,
/// and its result holds no duplicates.
pub proof fn lemma_dedup_seq_set(s: Seq<Seq<char>>)
    ensures
        dedup_seq(s).to_set() == s.to_set(),
        dedup_seq(s).no_duplicates(),
    decreases s.len(),
{
    broadcast use vstd::set::group_set_axioms;

    if s.len() == 0 {
        assert(dedup_seq(s).to_set() =~= s.to_set());
    } else {
        let rest = s.drop_last();
        let last = s.last();
        let d = dedup_seq(rest);
        lemma_dedup_seq_set(rest);
        assert(s =~= rest.push(last));
        rest.lemma_push_to_set_commute(last);
        assert(s.to_set() =~= rest.to_set().insert(last));
        if d.contains(last) {
            assert(dedup_seq(s) == d);
            assert(d.to_set().contains(last));
            assert(rest.to_set().contains(last));
            assert(dedup_seq(s).to_set() =~= s.to_set());
        } else {
            assert(dedup_seq(s) == d.push(last));
            d.lemma_push_to_set_commute(last);
            assert(dedup_seq(s).to_set() =~= s.to_set());
            assert forall|i: int, j: int|
                0 <= i < j < dedup_seq(s).len() implies dedup_seq(s)[i] != dedup_seq(s)[j] by {
                if j < d.len() {
                    assert(d[i] != d[j]);
                } else {
                    assert(dedup_seq(s)[j] == last);
                    assert(dedup_seq(s)[i] == d[i]);
                    assert(d.contains(d[i]));
                }
            }
        }
    }
}

/// True when some element of `ts` carries the canonical string `s`.
pub open spec fn registry_contains(ts: Seq<Type>, s: Seq<char>) -> bool {
    exists|i: int| 0 <= i < ts.len() && ts[i]@ == s
}

fn contains_str(ts: &Vec<Type>, s: &String) -> (r: bool)
    ensures
        r == registry_contains(ts@, s@),
{
    let n = ts.len();
    for i in 0..n
        invariant
            n == ts@.len(),
            forall|j: int| 0 <= j < i ==> ts@[j]@ != s@,
    {
        if crate::str_eq(ts[i].0.as_str(), s.as_str()) {
            return true;
        }
    }
    false
}

/// The canonical strings of the registry values, in order.
pub open spec fn canonical_strings(ts: Seq<Type>) -> Seq<Seq<char>> {
    ts.map_values(|t: Type| t@)
}

/// Loads the dynamic registry from the text of a schema document: one value
/// per distinct canonical string under the document's single key, in order of
/// first occurrence; duplicate canonical strings collapse to one value.
pub fn load_types_from_str(text: &str) -> (r: Result<Vec<Type>, SchemaError>)
    ensures
        (match r {
            Ok(ts) => {
                &&& yaml_string_map_of(text@) matches Some(entries)
                &&& entries.len() == 1
                &&& entries[0].1.len() > 0
                &&& canonical_strings(ts@) == dedup_seq(entries[0].1)
            },
            Err(SchemaError::Malformed) => yaml_string_map_of(text@) is None,
            Err(SchemaError::NotSingleKey) => (yaml_string_map_of(text@) matches Some(entries)
                && entries.len() != 1),
            Err(SchemaError::EmptyVariants) => (yaml_string_map_of(text@) matches Some(entries)
                && entries.len() == 1 && entries[0].1.len() == 0),
            Err(SchemaError::TagCollision) => false,
        }),
{
    let schema = match parse_schema(text) {
        Ok(s) => s,
        Err(e) => {
            return Err(e);
        },
    };
    let mut ts: Vec<Type> = Vec::new();
    proof {
        assert(canonical_strings(ts@) =~= Seq::<Seq<char>>::empty());
        assert(schema.variants.deep_view().take(0) =~= Seq::<Seq<char>>::empty());
    }
    let n = schema.variants.len();
    for i in 0..n
        invariant
            n == schema.variants@.len(),
            canonical_strings(ts@) == dedup_seq(schema.variants.deep_view().take(i as int)),
    {
        proof {
            assert(schema.variants.deep_view().take(i + 1).drop_last()
                =~= schema.variants.deep_view().take(i as int));
            assert(schema.variants.deep_view().take(i + 1).last()
                == schema.variants@[i as int]@);
        }
        let ghost target = schema.variants@[i as int]@;
        let ghost prefix = schema.variants.deep_view().take(i as int);
        let v = schema.variants[i].clone();
        if !contains_str(&ts, &v) {
            proof {
                if dedup_seq(prefix).contains(target) {
                    let m = choose|m: int|
                        0 <= m < dedup_seq(prefix).len() && dedup_seq(prefix)[m] == target;
                    assert(canonical_strings(ts@)[m] == target);
                    assert(registry_contains(ts@, target));
                }
            }
            let ghost old_ts = ts@;
            ts.push(Type(v));
            proof {
                assert(canonical_strings(ts@) =~= canonical_strings(old_ts).push(target));
            }
        } else {
            proof {
                let k = choose|k: int| 0 <= k < ts@.len() && ts@[k]@ == target;
                assert(canonical_strings(ts@)[k] == target);
                assert(canonical_strings(ts@).contains(target));
                assert(dedup_seq(prefix).contains(target));
            }
        }
    }
    proof {
        assert(schema.variants.deep_view().take(schema.variants@.len() as int)
            =~= schema.variants.deep_view());
    }
    Ok(ts)
}

} // verus!
