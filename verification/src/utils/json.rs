//! JSON documents as values of the library.

use vstd::prelude::*;

verus! {

/// A JSON value. A number is kept as the text that stands for it, and the
/// members of an object as a list of names and values.
#[derive(Debug, PartialEq, Eq)]
pub enum Json {
    Null,
    Bool(bool),
    Number(String),
    String(String),
    Array(Vec<Json>),
    Object(Vec<(String, Json)>),
}

/// A JSON value as `serde_json` holds it. The library reads none: it copies
/// one into a [`Json`], or carries it as it is.
#[verifier::external_type_specification]
#[verifier::external_body]
pub struct ExValue(serde_json::Value);

/// `clone` of a `serde_json::Value` returns an equal value.
pub assume_specification[ <serde_json::Value as Clone>::clone ](value: &serde_json::Value) -> (r:
    serde_json::Value)
    ensures
        r == *value,
;

/// The value that a document of JSON text stands for, or `None` for bytes that
/// are no such document.
pub uninterp spec fn json_document(bytes: Seq<u8>) -> Option<Json>;

/// Copies a `serde_json::Value` into a [`Json`], variant by variant: a number
/// as the text that `serde_json` prints for it, the elements of an array and
/// the members of an object in the order in which `serde_json` walks them.
#[verifier::external_body]
fn json_from_value(value: &serde_json::Value) -> Json {
    match value {
        serde_json::Value::Null => Json::Null,
        serde_json::Value::Bool(flag) => Json::Bool(*flag),
        serde_json::Value::Number(number) => Json::Number(number.to_string()),
        serde_json::Value::String(text) => Json::String(text.clone()),
        serde_json::Value::Array(items) => Json::Array(items.iter().map(json_from_value).collect()),
        serde_json::Value::Object(members) => Json::Object(
            members.iter().map(|(name, member)| (name.clone(), json_from_value(member))).collect(),
        ),
    }
}

/// Reads `bytes` with `serde_json::from_slice`. The contract claims that the
/// outcome is a function of the bytes alone, and gives that function the name
/// [`json_document`]: `None` where `serde_json` reports an error.
#[verifier::external_body]
fn parse_document(bytes: &[u8]) -> (r: Option<Json>)
    ensures
        r == json_document(bytes@),
{
    match serde_json::from_slice::<serde_json::Value>(bytes) {
        Ok(value) => Some(json_from_value(&value)),
        Err(_) => None,
    }
}

/// The first member called `name` among `members`, if there is one.
pub open spec fn first_member(members: Seq<(String, Json)>, name: Seq<char>) -> Option<Json>
    decreases members.len(),
{
    if members.len() == 0 {
        None
    } else if members[0].0@ == name {
        Some(members[0].1)
    } else {
        first_member(members.drop_first(), name)
    }
}

/// The index of the first member called `name`.
fn find_member(members: &Vec<(String, Json)>, name: &str) -> (r: Option<usize>)
    ensures
        match r {
            Some(index) => index < members.len() && first_member(members@, name@) == Some(
                members@[index as int].1,
            ),
            None => first_member(members@, name@) is None,
        },
{
    let wanted = String::from_str(name);
    let mut index: usize = 0;
    assert(members@.skip(0) == members@);
    while index < members.len()
        invariant
            index <= members.len(),
            wanted@ == name@,
            first_member(members@, name@) == first_member(members@.skip(index as int), name@),
        decreases members.len() - index,
    {
        let ghost rest = members@.skip(index as int);
        assert(rest[0] == members@[index as int]);
        assert(rest.drop_first() == members@.skip(index as int + 1));
        if members[index].0 == wanted {
            return Some(index);
        }
        index = index + 1;
    }
    None
}

impl Json {
    /// The member called `name` of an object; `None` for a value that is no
    /// object or has no such member.
    pub open spec fn member(self, name: Seq<char>) -> Option<Json> {
        match self {
            Json::Object(members) => first_member(members@, name),
            _ => None,
        }
    }

    /// The text of a JSON string; `None` for any other value.
    pub open spec fn text(self) -> Option<Seq<char>> {
        match self {
            Json::String(text) => Some(text@),
            _ => None,
        }
    }

    /// What an optional text member called `name` holds: `Some(None)` where
    /// the member is absent or `null`, `Some(Some(text))` where it is a string,
    /// and `None` where it is anything else.
    pub open spec fn optional_text(self, name: Seq<char>) -> Option<Option<Seq<char>>> {
        match self.member(name) {
            None => Some(None),
            Some(Json::Null) => Some(None),
            Some(Json::String(text)) => Some(Some(text@)),
            Some(_) => None,
        }
    }

    /// Reads a document of JSON text.
    pub fn parse(bytes: &[u8]) -> (r: Option<Json>)
        ensures
            r == json_document(bytes@),
    {
        parse_document(bytes)
    }

    /// The member called `name` of an object.
    pub fn get(&self, name: &str) -> (r: Option<&Json>)
        ensures
            match r {
                Some(found) => self.member(name@) == Some(*found),
                None => self.member(name@) is None,
            },
    {
        match self {
            Json::Object(members) => match find_member(members, name) {
                Some(index) => Some(&members[index].1),
                None => None,
            },
            _ => None,
        }
    }

    /// Takes the member called `name` out of an object.
    pub fn take(self, name: &str) -> (r: Option<Json>)
        ensures
            r == self.member(name@),
    {
        match self {
            Json::Object(members) => match find_member(&members, name) {
                Some(index) => {
                    let mut members = members;
                    let (_, member) = members.remove(index);
                    Some(member)
                },
                None => None,
            },
            _ => None,
        }
    }

    /// The text of a JSON string.
    pub fn as_str(&self) -> (r: Option<&String>)
        ensures
            match r {
                Some(text) => self.text() == Some(text@),
                None => self.text() is None,
            },
    {
        match self {
            Json::String(text) => Some(text),
            _ => None,
        }
    }

    /// Reads an optional text member: absent and `null` both give `None`
    /// inside, and a member of any other kind gives `Err`.
    pub fn get_optional_str(&self, name: &str) -> (r: Result<Option<String>, ()>)
        ensures
            match r {
                Ok(Some(text)) => self.optional_text(name@) == Some(Some(text@)),
                Ok(None) => self.optional_text(name@) == Some(None::<Seq<char>>),
                Err(_) => self.optional_text(name@) is None,
            },
    {
        match self.get(name) {
            None => Ok(None),
            Some(Json::Null) => Ok(None),
            Some(Json::String(text)) => Ok(Some(text.clone())),
            Some(_) => Err(()),
        }
    }
}

} // verus!
