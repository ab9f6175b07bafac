//! The static mode's value type: a closed enumeration over the shipped
//! schema, with one tag per variant. Equality is structural tag equality;
//! each tag carries its canonical string, the exact variant text of the
//! schema, as wire and display form.

use vstd::prelude::*;

use crate::error::ParseError;

verus! {

/// The closed enumeration built from the shipped schema, one tag per
/// declared variant.
#[derive(Clone, Copy, Debug, PartialEq, Eq, Hash, Structural)]
pub enum Information {
    Email,
    PhoneNumber,
    Credential,
    Date,
}

impl Information {
    /// The canonical string of a tag: the exact variant text of the schema.
    pub open spec fn spec_canonical(self) -> Seq<char> {
        match self {
            Information::Email => "email"@,
            Information::PhoneNumber => "phone_number"@,
            Information::Credential => "credential"@,
            Information::Date => "date"@,
        }
    }

    /// Which tag a canonical string denotes, if any: the first declared
    /// variant whose canonical string equals it.
    pub open spec fn spec_parse(s: Seq<char>) -> Option<Information> {
        if s == "email"@ {
            Some(Information::Email)
        } else if s == "phone_number"@ {
            Some(Information::PhoneNumber)
        } else if s == "credential"@ {
            Some(Information::Credential)
        } else if s == "date"@ {
            Some(Information::Date)
        } else {
            None
        }
    }

    /// All tags in declaration order.
    pub open spec fn spec_all_tags() -> Seq<Information> {
        seq![
            Information::Email,
            Information::PhoneNumber,
            Information::Credential,
            Information::Date,
        ]
    }

    /// All canonical strings in declaration order.
    pub open spec fn spec_all_canonicals() -> Seq<Seq<char>> {
        seq!["email"@, "phone_number"@, "credential"@, "date"@]
    }

    /// The render operation: a tag's canonical string, borrowed.
    pub fn as_str(self) -> (r: &'static str)
        ensures
            r@ == self.spec_canonical(),
    {
        match self {
            Information::Email => "email",
            Information::PhoneNumber => "phone_number",
            Information::Credential => "credential",
            Information::Date => "date",
        }
    }

    /// The render operation: a tag's canonical string, owned.
    pub fn render(self) -> (r: String)
        ensures
            r@ == self.spec_canonical(),
    {
        self.as_str().to_owned()
    }

    /// The parse operation: a canonical string's tag; any string not among
    /// the declared canonical forms is refused as unrecognized.
    pub fn from_str(s: &str) -> (r: Result<Information, ParseError>)
        ensures
            r == (match Information::spec_parse(s@) {
                Some(i) => Ok::<Information, ParseError>(i),
                None => Err::<Information, ParseError>(ParseError::Unrecognized),
            }),
    {
        if crate::str_eq(s, "email") {
            Ok(Information::Email)
        } else if crate::str_eq(s, "phone_number") {
            Ok(Information::PhoneNumber)
        } else if crate::str_eq(s, "credential") {
            Ok(Information::Credential)
        } else if crate::str_eq(s, "date") {
            Ok(Information::Date)
        } else {
            Err(ParseError::Unrecognized)
        }
    }

    /// All tags in declaration order.
    pub fn all() -> (r: Vec<Information>)
        ensures
            r@ == Information::spec_all_tags(),
    {
        let mut r: Vec<Information> = Vec::new();
        r.push(Information::Email);
        r.push(Information::PhoneNumber);
        r.push(Information::Credential);
        r.push(Information::Date);
        proof {
            assert(r@ =~= Information::spec_all_tags());
        }
        r
    }

    /// The membership view: the fixed listing of all canonical strings, in
    /// declaration order.
    pub fn all_strings() -> (r: Vec<&'static str>)
        ensures
            r.deep_view() == Information::spec_all_canonicals(),
    {
        let mut r: Vec<&'static str> = Vec::new();
        r.push("email");
        r.push("phone_number");
        r.push("credential");
        r.push("date");
        proof {
            assert(r.deep_view() =~= Information::spec_all_canonicals());
        }
        r
    }
}

/// Round trip (static mode): parsing the rendered canonical string of any
/// tag yields that tag back.
pub proof fn lemma_information_round_trip(i: Information)
    ensures
        Information::spec_parse(i.spec_canonical()) == Some(i),
{
    reveal_strlit("email");
    reveal_strlit("phone_number");
    reveal_strlit("credential");
    reveal_strlit("date");
    assert("email"@.len() == 5);
    assert("phone_number"@.len() == 12);
    assert("credential"@.len() == 10);
    assert("date"@.len() == 4);
    match i {
        Information::Email => {
            assert(Information::spec_parse("email"@) == Some(Information::Email));
        },
        Information::PhoneNumber => {
            assert(Information::spec_parse("phone_number"@) == Some(Information::PhoneNumber));
        },
        Information::Credential => {
            assert(Information::spec_parse("credential"@) == Some(Information::Credential));
        },
        Information::Date => {
            assert(Information::spec_parse("date"@) == Some(Information::Date));
        },
    }
}

/// Order preservation: position by position, the fixed listing of canonical
/// strings names the canonical string of the tag declared at that position.
pub proof fn lemma_all_strings_order()
    ensures
        Information::spec_all_canonicals().len() == Information::spec_all_tags().len(),
        forall|i: int|
            0 <= i < Information::spec_all_tags().len()
                ==> Information::spec_all_canonicals()[i]
                == #[trigger] Information::spec_all_tags()[i].spec_canonical(),
{
    assert forall|i: int|
        0 <= i < Information::spec_all_tags().len()
            implies Information::spec_all_canonicals()[i]
            == #[trigger] Information::spec_all_tags()[i].spec_canonical() by {
        if i == 0 {
        } else if i == 1 {
        } else if i == 2 {
        } else {
            assert(i == 3);
        }
    }
}

} // verus!
