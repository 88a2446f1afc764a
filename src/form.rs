//! Turns the fields of a submitted contact form into a [`Contact`].
use vstd::prelude::*;
use crate::contact::Contact;
use crate::routing::{chars_of, equals_lit};

verus! {

/// The fields of the contact form.
#[derive(Clone, Copy, Debug, PartialEq, Eq, Structural)]
pub enum Field {
    FirstName,
    LastName,
    Email,
}

/// Why a submitted form does not make a contact.
#[derive(Clone, Copy, Debug, PartialEq, Eq, Structural)]
pub enum FormError {
    /// The field was not submitted.
    Missing(Field),
    /// The field was submitted more than once.
    Duplicate(Field),
}

impl Field {
    /// The key the field is submitted under.
    pub open spec fn key(self) -> Seq<char> {
        match self {
            Field::FirstName => "first_name"@,
            Field::LastName => "last_name"@,
            Field::Email => "email"@,
        }
    }

    /// The key the field is submitted under.
    pub fn name(self) -> (r: &'static str)
        ensures
            r@ == self.key(),
    {
        match self {
            Field::FirstName => "first_name",
            Field::LastName => "last_name",
            Field::Email => "email",
        }
    }
}

impl FormError {
    /// The text a client gets for this error.
    pub open spec fn text(self) -> Seq<char> {
        match self {
            FormError::Missing(f) => "Failed to deserialize form body: missing field `"@ + f.key()
                + "`"@,
            FormError::Duplicate(f) => "Failed to deserialize form body: duplicate field `"@
                + f.key() + "`"@,
        }
    }

    /// The text a client gets for this error.
    pub fn describe(&self) -> (r: String)
        ensures
            r@ == self.text(),
    {
        match self {
            FormError::Missing(f) => String::from_str(
                "Failed to deserialize form body: missing field `",
            ).concat(f.name()).concat("`"),
            FormError::Duplicate(f) => String::from_str(
                "Failed to deserialize form body: duplicate field `",
            ).concat(f.name()).concat("`"),
        }
    }
}

/// The field submitted under key `k`, if any.
pub open spec fn field_named(k: Seq<char>) -> Option<Field> {
    if k == Field::FirstName.key() {
        Some(Field::FirstName)
    } else if k == Field::LastName.key() {
        Some(Field::LastName)
    } else if k == Field::Email.key() {
        Some(Field::Email)
    } else {
        None
    }
}

/// How many of the pairs have key `k`.
pub open spec fn count_key(pairs: Seq<(String, String)>, k: Seq<char>) -> nat
    decreases pairs.len(),
{
    if pairs.len() == 0 {
        0
    } else {
        count_key(pairs.drop_last(), k) + if pairs.last().0@ == k {
            1nat
        } else {
            0nat
        }
    }
}

/// The value of the last pair with key `k`.
pub open spec fn value_for(pairs: Seq<(String, String)>, k: Seq<char>) -> Seq<char>
    decreases pairs.len(),
{
    if pairs.len() == 0 {
        Seq::empty()
    } else if pairs.last().0@ == k {
        pairs.last().1@
    } else {
        value_for(pairs.drop_last(), k)
    }
}

/// The first field, in submission order, that is submitted a second time.
pub open spec fn first_repeat(pairs: Seq<(String, String)>) -> Option<Field>
    decreases pairs.len(),
{
    if pairs.len() == 0 {
        None
    } else {
        match first_repeat(pairs.drop_last()) {
            Some(f) => Some(f),
            None => match field_named(pairs.last().0@) {
                Some(f) => if count_key(pairs.drop_last(), f.key()) > 0 {
                    Some(f)
                } else {
                    None
                },
                None => None,
            },
        }
    }
}

/// What a form with these key/value pairs yields: the three field values,
/// or the first repeated field, or else the first missing one in the order
/// first name, last name, email. Keys of no field are ignored.
pub open spec fn form_result(pairs: Seq<(String, String)>) -> Result<
    (Seq<char>, Seq<char>, Seq<char>),
    FormError,
> {
    match first_repeat(pairs) {
        Some(f) => Err(FormError::Duplicate(f)),
        None => if count_key(pairs, Field::FirstName.key()) == 0 {
            Err(FormError::Missing(Field::FirstName))
        } else if count_key(pairs, Field::LastName.key()) == 0 {
            Err(FormError::Missing(Field::LastName))
        } else if count_key(pairs, Field::Email.key()) == 0 {
            Err(FormError::Missing(Field::Email))
        } else {
            Ok(
                (
                    value_for(pairs, Field::FirstName.key()),
                    value_for(pairs, Field::LastName.key()),
                    value_for(pairs, Field::Email.key()),
                ),
            )
        },
    }
}

proof fn lemma_first_repeat_prefix(pairs: Seq<(String, String)>, k: int)
    requires
        0 <= k <= pairs.len(),
        first_repeat(pairs.take(k)) is Some,
    ensures
        first_repeat(pairs) == first_repeat(pairs.take(k)),
    decreases pairs.len(),
{
    if k < pairs.len() {
        assert(pairs.drop_last().take(k) =~= pairs.take(k));
        lemma_first_repeat_prefix(pairs.drop_last(), k);
    } else {
        assert(pairs.take(k) =~= pairs);
    }
}

fn field_of_key(k: &str) -> (r: Option<Field>)
    ensures
        r == field_named(k@),
{
    let c = chars_of(k);
    if equals_lit(&c, "first_name") {
        Some(Field::FirstName)
    } else if equals_lit(&c, "last_name") {
        Some(Field::LastName)
    } else if equals_lit(&c, "email") {
        Some(Field::Email)
    } else {
        None
    }
}

/// What a slot holds after the pairs seen so far: nothing if the field's key
/// has not come, its value if it came once.
pub open spec fn slot_tracks(slot: Option<String>, seen: Seq<(String, String)>, f: Field) -> bool {
    match slot {
        None => count_key(seen, f.key()) == 0,
        Some(v) => count_key(seen, f.key()) == 1 && v@ == value_for(seen, f.key()),
    }
}

/// The contact that a form with these key/value pairs submits.
pub fn contact_from_pairs(pairs: &Vec<(String, String)>) -> (r: Result<Contact, FormError>)
    ensures
        match r {
            Ok(c) => form_result(pairs@) == Ok::<_, FormError>(c.fields()),
            Err(e) => form_result(pairs@) == Err::<(Seq<char>, Seq<char>, Seq<char>), _>(e),
        },
{
    let mut first: Option<String> = None;
    let mut last: Option<String> = None;
    let mut email: Option<String> = None;
    let mut i: usize = 0;
    while i < pairs.len()
        invariant
            i <= pairs@.len(),
            first_repeat(pairs@.take(i as int)) is None,
            slot_tracks(first, pairs@.take(i as int), Field::FirstName),
            slot_tracks(last, pairs@.take(i as int), Field::LastName),
            slot_tracks(email, pairs@.take(i as int), Field::Email),
        decreases pairs@.len() - i,
    {
        let ghost seen = pairs@.take(i as int);
        let ghost next = pairs@.take(i + 1);
        assert(next.drop_last() =~= seen);
        proof {
            reveal_strlit("first_name");
            reveal_strlit("last_name");
            reveal_strlit("email");
        }
        let pair = &pairs[i];
        let f = field_of_key(pair.0.as_str());
        assert(next.last() == *pair);
        proof {
            assert forall|g: Field| f != Some(g) implies count_key(next, g.key()) == count_key(seen, g.key())
                && value_for(next, g.key()) == value_for(seen, g.key()) by {
                assert(Field::FirstName.key().len() == 10);
                assert(Field::LastName.key().len() == 9);
                assert(Field::Email.key().len() == 5);
                assert(g.key() != pair.0@);
            }
        }
        match f {
            Some(Field::FirstName) => {
                if first.is_some() {
                    proof {
                        lemma_first_repeat_prefix(pairs@, i + 1);
                    }
                    return Err(FormError::Duplicate(Field::FirstName));
                }
                first = Some(pair.1.clone());
            },
            Some(Field::LastName) => {
                if last.is_some() {
                    proof {
                        lemma_first_repeat_prefix(pairs@, i + 1);
                    }
                    return Err(FormError::Duplicate(Field::LastName));
                }
                last = Some(pair.1.clone());
            },
            Some(Field::Email) => {
                if email.is_some() {
                    proof {
                        lemma_first_repeat_prefix(pairs@, i + 1);
                    }
                    return Err(FormError::Duplicate(Field::Email));
                }
                email = Some(pair.1.clone());
            },
            None => {},
        }
        i = i + 1;
    }
    assert(pairs@.take(i as int) =~= pairs@);
    match (first, last, email) {
        (Some(first_name), Some(last_name), Some(email)) => Ok(
            Contact { first_name, last_name, email },
        ),
        (None, _, _) => Err(FormError::Missing(Field::FirstName)),
        (_, None, _) => Err(FormError::Missing(Field::LastName)),
        (_, _, None) => Err(FormError::Missing(Field::Email)),
    }
}

} // verus!
