//! JSON documents, as far as decisions are made by what they hold.

use crate::text::same_text;
use vstd::prelude::*;

verus! {

/// A JSON document.
#[derive(Debug)]
pub enum Json {
    Null,
    Bool(bool),
    /// A whole number that is not negative.
    Unsigned(u64),
    /// A whole number below zero.
    Negative(i64),
    /// Any other number, as it is written.
    Fractional(String),
    Str(String),
    Array(Vec<Json>),
    /// Members by name; where a name occurs twice, the last counts.
    Object(Vec<(String, Json)>),
}

/// The last member of that name.
pub open spec fn last_named(members: Seq<(String, Json)>, name: Seq<char>) -> Option<Json>
    decreases members.len(),
{
    if members.len() == 0 {
        None
    } else if members.last().0@ == name {
        Some(members.last().1)
    } else {
        last_named(members.drop_last(), name)
    }
}

/// The member of an object.
pub open spec fn member(document: Json, name: Seq<char>) -> Option<Json> {
    match document {
        Json::Object(members) => last_named(members@, name),
        _ => None,
    }
}

/// The member of an object, if it is a truth value.
pub open spec fn bool_member(document: Json, name: Seq<char>) -> Option<bool> {
    match member(document, name) {
        Some(Json::Bool(value)) => Some(value),
        _ => None,
    }
}

/// The member of an object, if it is a whole number that is not negative.
pub open spec fn unsigned_member(document: Json, name: Seq<char>) -> Option<u64> {
    match member(document, name) {
        Some(Json::Unsigned(value)) => Some(value),
        _ => None,
    }
}

/// The member of an object, if it is a text.
pub open spec fn text_member(document: Json, name: Seq<char>) -> Option<Seq<char>> {
    match member(document, name) {
        Some(Json::Str(value)) => Some(value@),
        _ => None,
    }
}

/// The member of an object, if it is an object itself.
pub open spec fn object_member(document: Json, name: Seq<char>) -> Option<Json> {
    match member(document, name) {
        Some(value) if value is Object => Some(value),
        _ => None,
    }
}

fn find_last<'a>(members: &'a Vec<(String, Json)>, name: &str) -> (found: Option<&'a Json>)
    ensures
        match found {
            Some(found) => last_named(members@, name@) == Some(*found),
            None => last_named(members@, name@) is None,
        },
{
    let mut end: usize = members.len();
    assert(members@.take(end as int) =~= members@);
    while end > 0
        invariant
            end <= members@.len(),
            last_named(members@, name@) == last_named(members@.take(end as int), name@),
        decreases end,
    {
        assert(members@.take(end as int).drop_last() =~= members@.take(end - 1));
        if same_text(members[end - 1].0.as_str(), name) {
            return Some(&members[end - 1].1);
        }
        end -= 1;
    }
    None
}

impl Json {
    /// The member of an object.
    pub fn get(&self, name: &str) -> (found: Option<&Json>)
        ensures
            match found {
                Some(found) => member(*self, name@) == Some(*found),
                None => member(*self, name@) is None,
            },
    {
        match self {
            Json::Object(members) => find_last(members, name),
            _ => None,
        }
    }

    /// The member of an object, if it is a truth value.
    pub fn get_bool(&self, name: &str) -> (value: Option<bool>)
        ensures
            value == bool_member(*self, name@),
    {
        match self.get(name) {
            Some(Json::Bool(value)) => Some(*value),
            _ => None,
        }
    }

    /// The member of an object, if it is a whole number that is not negative.
    pub fn get_unsigned(&self, name: &str) -> (value: Option<u64>)
        ensures
            value == unsigned_member(*self, name@),
    {
        match self.get(name) {
            Some(Json::Unsigned(value)) => Some(*value),
            _ => None,
        }
    }

    /// The member of an object, if it is a text.
    pub fn get_text(&self, name: &str) -> (value: Option<&String>)
        ensures
            match value {
                Some(value) => text_member(*self, name@) == Some(value@),
                None => text_member(*self, name@) is None,
            },
    {
        match self.get(name) {
            Some(Json::Str(value)) => Some(value),
            _ => None,
        }
    }

    /// The member of an object, if it is an object itself.
    pub fn get_object(&self, name: &str) -> (value: Option<&Json>)
        ensures
            match value {
                Some(value) => object_member(*self, name@) == Some(*value),
                None => object_member(*self, name@) is None,
            },
    {
        match self.get(name) {
            Some(value) => match value {
                Json::Object(_) => Some(value),
                _ => None,
            },
            None => None,
        }
    }
}

/// The members of an object are those it was given. Where a name is given
/// again, what it was given last counts; other names keep what they had.
pub proof fn law_last_member_of_a_name_counts(
    shorter: Vec<(String, Json)>,
    longer: Vec<(String, Json)>,
    added: (String, Json),
    name: Seq<char>,
)
    requires
        longer@ == shorter@.push(added),
    ensures
        added.0@ == name ==> member(Json::Object(longer), name) == Some(added.1),
        added.0@ != name ==> member(Json::Object(longer), name) == member(
            Json::Object(shorter),
            name,
        ),
{
    assert(longer@.drop_last() =~= shorter@);
}

/// An object without members, and a document that is no object, have no member
/// of any name.
pub proof fn law_only_objects_have_members(document: Json, name: Seq<char>)
    requires
        document matches Json::Object(members) ==> members@.len() == 0,
    ensures
        member(document, name) is None,
        bool_member(document, name) is None,
        unsigned_member(document, name) is None,
        text_member(document, name) is None,
        object_member(document, name) is None,
{
}

/// A member is read as what it is, and as nothing else.
pub proof fn law_members_are_read_by_their_type(document: Json, name: Seq<char>, found: Json)
    requires
        member(document, name) == Some(found),
    ensures
        bool_member(document, name) == match found {
            Json::Bool(value) => Some(value),
            _ => None,
        },
        unsigned_member(document, name) == match found {
            Json::Unsigned(value) => Some(value),
            _ => None,
        },
        text_member(document, name) == match found {
            Json::Str(value) => Some(value@),
            _ => None,
        },
        object_member(document, name) == match found {
            Json::Object(_) => Some(found),
            _ => None,
        },
{
}

} // verus!
