//! First-match dispatch over canonical strings: the pattern-match helper,
//! usable uniformly over the string form of either mode's values.

use vstd::prelude::*;

verus! {

/// The literal keys of a case list.
pub open spec fn case_keys<A>(cases: Seq<(String, A)>) -> Seq<Seq<char>> {
    cases.map_values(|c: (String, A)| c.0@)
}

/// The position of the first key equal to `v`, if any.
pub open spec fn first_match(keys: Seq<Seq<char>>, v: Seq<char>) -> Option<int>
    decreases keys.len(),
{
    if keys.len() == 0 {
        None
    } else if keys[0] == v {
        Some(0int)
    } else {
        match first_match(keys.drop_first(), v) {
            Some(i) => Some(i + 1),
            None => None,
        }
    }
}

/// A key equal to `v` at position `i`, with none before it, is the first
/// match.
proof fn lemma_first_match_at(keys: Seq<Seq<char>>, v: Seq<char>, i: int)
    requires
        0 <= i < keys.len(),
        keys[i] == v,
        forall|j: int| 0 <= j < i ==> keys[j] != v,
    ensures
        first_match(keys, v) == Some(i),
    decreases i,
{
    if i > 0 {
        assert(forall|j: int| 0 <= j < i - 1 ==> keys.drop_first()[j] == keys[j + 1]);
        lemma_first_match_at(keys.drop_first(), v, i - 1);
    }
}

/// When no key equals `v`, there is no first match.
proof fn lemma_first_match_none(keys: Seq<Seq<char>>, v: Seq<char>)
    requires
        forall|j: int| 0 <= j < keys.len() ==> keys[j] != v,
    ensures
        first_match(keys, v) is None,
    decreases keys.len(),
{
    if keys.len() > 0 {
        assert(forall|j: int| 0 <= j < keys.len() - 1 ==> keys.drop_first()[j] == keys[j + 1]);
        lemma_first_match_none(keys.drop_first(), v);
    }
}

/// Evaluates the case list against a value's canonical string: the result is
/// the action of the first case whose literal equals the string, or the
/// fallback if no literal matches and one is supplied.
///
/// Exhaustiveness is the caller's responsibility: a call where no literal
/// matches and no fallback is supplied violates this contract, and an
/// unverified caller that makes it fails fast instead of returning.
pub fn match_type<A>(value: &str, cases: Vec<(String, A)>, fallback: Option<A>) -> (r: A)
    requires
        first_match(case_keys(cases@), value@) is Some || fallback is Some,
    ensures
        (match first_match(case_keys(cases@), value@) {
            Some(i) => r == cases@[i].1,
            None => fallback matches Some(f) && r == f,
        }),
{
    let n = cases.len();
    let mut hit: Option<usize> = None;
    for i in 0..n
        invariant
            n == cases@.len(),
            (match hit {
                Some(h) => h < n && first_match(case_keys(cases@), value@) == Some(h as int),
                None => forall|j: int| 0 <= j < i ==> case_keys(cases@)[j] != value@,
            }),
    {
        proof {
            assert(case_keys(cases@)[i as int] == cases@[i as int].0@);
        }
        if hit.is_none() && crate::str_eq(cases[i].0.as_str(), value) {
            proof {
                lemma_first_match_at(case_keys(cases@), value@, i as int);
            }
            hit = Some(i);
        }
    }
    match hit {
        Some(h) => {
            let mut cs = cases;
            let pair = cs.remove(h);
            pair.1
        },
        None => {
            proof {
                lemma_first_match_none(case_keys(cases@), value@);
            }
            fallback.unwrap()
        },
    }
}

} // verus!
