//! The decoded body of a provider response: a tree of JSON values.
use vstd::prelude::*;
use vstd::string::*;
use crate::reading::Reading;
use crate::text::str_eq;

verus! {

/// A JSON value, as read from a response body.
#[derive(Debug)]
pub enum JsonValue {
    Null,
    Bool(bool),
    /// A number, as the binary64 number nearest to what the body spells.
    Number(Reading),
    Text(String),
    Array(Vec<JsonValue>),
    /// The members of an object, each a name and a value.
    Object(Vec<(String, JsonValue)>),
}

/// The value of the first member named `key`, if there is one.
pub open spec fn member_of(members: Seq<(String, JsonValue)>, key: Seq<char>) -> Option<JsonValue>
    decreases members.len(),
{
    if members.len() == 0 {
        None
    } else if members[0].0@ == key {
        Some(members[0].1)
    } else {
        member_of(members.drop_first(), key)
    }
}

/// How many of the members are named `key`.
pub open spec fn occurrences(members: Seq<(String, JsonValue)>, key: Seq<char>) -> nat
    decreases members.len(),
{
    if members.len() == 0 {
        0
    } else {
        let first: nat = if members[0].0@ == key {
            1
        } else {
            0
        };
        first + occurrences(members.drop_first(), key)
    }
}

impl JsonValue {
    /// The member `key` of an object. An object that names `key` twice has
    /// no such member: neither value is picked over the other. A value of
    /// another kind has no members.
    pub open spec fn member(self, key: Seq<char>) -> Option<JsonValue> {
        match self {
            JsonValue::Object(members) => if occurrences(members@, key) == 1 {
                member_of(members@, key)
            } else {
                None
            },
            _ => None,
        }
    }

    /// The number that the value is, if it is one.
    pub open spec fn as_number(self) -> Option<Reading> {
        match self {
            JsonValue::Number(reading) => Some(reading),
            _ => None,
        }
    }

    /// The text that the value is, if it is one.
    pub open spec fn as_text(self) -> Option<Seq<char>> {
        match self {
            JsonValue::Text(text) => Some(text@),
            _ => None,
        }
    }

    /// The items of the value, if it is an array.
    pub open spec fn as_array(self) -> Option<Seq<JsonValue>> {
        match self {
            JsonValue::Array(items) => Some(items@),
            _ => None,
        }
    }

    /// The number under `key`: the member must be there and be a number.
    pub open spec fn number_at(self, key: Seq<char>) -> Option<Reading> {
        match self.member(key) {
            Some(value) => value.as_number(),
            None => None,
        }
    }

    /// The text under `key`: the member must be there and be a text.
    pub open spec fn text_at(self, key: Seq<char>) -> Option<Seq<char>> {
        match self.member(key) {
            Some(value) => value.as_text(),
            None => None,
        }
    }

    /// Looks up the member `key` of an object.
    pub fn get(&self, key: &str) -> (found: Option<&JsonValue>)
        ensures
            match found {
                Some(value) => self.member(key@) == Some(*value),
                None => self.member(key@) is None,
            },
    {
        match self {
            JsonValue::Object(members) => {
                let n: usize = members.len();
                let mut first: Option<usize> = None;
                let mut i: usize = 0;
                assert(members@.skip(0) =~= members@);
                while i < n
                    invariant
                        i <= n,
                        n == members@.len(),
                        *self == JsonValue::Object(*members),
                        match first {
                            Some(j) => j < i && occurrences(members@, key@) == 1 + occurrences(
                                members@.skip(i as int),
                                key@,
                            ) && member_of(members@, key@) == Some(members@[j as int].1),
                            None => occurrences(members@, key@) == occurrences(
                                members@.skip(i as int),
                                key@,
                            ) && member_of(members@, key@) == member_of(members@.skip(i as int), key@),
                        },
                    decreases n - i,
                {
                    assert(members@.skip(i as int).drop_first() =~= members@.skip(i as int + 1));
                    assert(members@.skip(i as int)[0] == members@[i as int]);
                    if str_eq(members[i].0.as_str(), key) {
                        if first.is_some() {
                            return None;
                        }
                        first = Some(i);
                    }
                    i = i + 1;
                }
                match first {
                    Some(j) => Some(&members[j].1),
                    None => None,
                }
            },
            _ => None,
        }
    }

    /// Reads the number under `key`.
    pub fn get_number(&self, key: &str) -> (found: Option<Reading>)
        ensures
            found == self.number_at(key@),
    {
        match self.get(key) {
            Some(JsonValue::Number(reading)) => Some(*reading),
            _ => None,
        }
    }

    /// Reads the text under `key`.
    pub fn get_text(&self, key: &str) -> (found: Option<String>)
        ensures
            match found {
                Some(text) => self.text_at(key@) == Some(text@),
                None => self.text_at(key@) is None,
            },
    {
        match self.get(key) {
            Some(JsonValue::Text(text)) => Some(text.clone()),
            _ => None,
        }
    }
}

} // verus!
