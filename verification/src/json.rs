//! JSON values, as far as a run has to look into the dataset itself.

use vstd::prelude::*;

verus! {

/// A JSON value. The members of an object stand in the order in which the
/// reader hands them out; a number is kept as the text that denotes it.
#[derive(Debug, PartialEq, Eq)]
pub enum Json {
    Null,
    Bool(bool),
    Number(String),
    Text(String),
    List(Vec<Json>),
    Object(Vec<(String, Json)>),
}

/// `serde_json::Value`, which the reader hands out. Contracts speak of it
/// through [`json_of`]; it is turned into a [`Json`] before anything looks
/// at it.
#[verifier::external_type_specification]
#[verifier::external_body]
pub struct ExJsonValue(serde_json::Value);

/// What a `serde_json::Value` holds, written down node by node as a
/// [`Json`]: a number as its `to_string`, the members of an object in the
/// order in which `serde_json::Map` iterates.
pub uninterp spec fn json_of(value: serde_json::Value) -> Json;

/// What `serde_json::from_str` makes of a text when it is asked for a
/// `serde_json::Value`: what the value holds, or what its error says, as
/// `to_string` gives it.
pub uninterp spec fn read_json(text: Seq<char>) -> Result<Json, Seq<char>>;

/// The value that a text denotes, `None` where the text is not JSON.
pub open spec fn parsed_json(text: Seq<char>) -> Option<Json> {
    match read_json(text) {
        Ok(json) => Some(json),
        Err(_) => None,
    }
}

/// What the reader says of a text that is not JSON.
pub open spec fn json_complaint(text: Seq<char>) -> Seq<char> {
    read_json(text)->Err_0
}

/// Calls `serde_json::from_str` for a `serde_json::Value`. The outcome
/// depends on the text alone; the contract gives it its name and claims
/// nothing else of it.
#[verifier::external_body]
fn read_value(text: &str) -> (read: Result<serde_json::Value, String>)
    ensures
        read is Ok <==> read_json(text@) is Ok,
        read matches Ok(value) ==> json_of(value) == read_json(text@)->Ok_0,
        read matches Err(complaint) ==> complaint@ == read_json(text@)->Err_0,
{
    match serde_json::from_str::<serde_json::Value>(text) {
        Ok(value) => Ok(value),
        Err(error) => Err(error.to_string()),
    }
}

/// Turns a `serde_json::Value` into a [`Json`], variant for variant, its
/// parts in the same way.
#[verifier::external_body]
fn lowered(value: serde_json::Value) -> (json: Json)
    ensures
        json == json_of(value),
{
    match value {
        serde_json::Value::Null => Json::Null,
        serde_json::Value::Bool(b) => Json::Bool(b),
        serde_json::Value::Number(n) => Json::Number(n.to_string()),
        serde_json::Value::String(s) => Json::Text(s),
        serde_json::Value::Array(items) => Json::List(items.into_iter().map(lowered).collect()),
        serde_json::Value::Object(members) => Json::Object(
            members.into_iter().map(|(name, value)| (name, lowered(value))).collect(),
        ),
    }
}

/// Reads a text as JSON: the value, or what the reader says against it.
pub fn parse_json(text: &str) -> (json: Result<Json, String>)
    ensures
        json is Ok <==> read_json(text@) is Ok,
        json matches Ok(value) ==> value == read_json(text@)->Ok_0,
        json matches Err(complaint) ==> complaint@ == read_json(text@)->Err_0,
{
    match read_value(text) {
        Ok(value) => Ok(lowered(value)),
        Err(complaint) => Err(complaint),
    }
}

/// The value of the first of `members` that is named `name`.
pub open spec fn member_named(members: Seq<(String, Json)>, name: Seq<char>) -> Option<Json>
    decreases members.len(),
{
    if members.len() == 0 {
        None
    } else if members[0].0@ == name {
        Some(members[0].1)
    } else {
        member_named(members.drop_first(), name)
    }
}

impl Json {
    /// The members of an object, `None` for any other value.
    pub open spec fn members(self) -> Option<Seq<(String, Json)>> {
        match self {
            Json::Object(members) => Some(members@),
            _ => None,
        }
    }

    /// The member of an object that is named `name`; `None` where there is
    /// none or the value is no object.
    pub open spec fn member(self, name: Seq<char>) -> Option<Json> {
        match self {
            Json::Object(members) => member_named(members@, name),
            _ => None,
        }
    }

    /// The characters of a string, `None` for any other value.
    pub open spec fn text(self) -> Option<Seq<char>> {
        match self {
            Json::Text(text) => Some(text@),
            _ => None,
        }
    }

    /// The member of an object that is named `name`.
    pub fn get(&self, name: &str) -> (found: Option<&Json>)
        ensures
            found matches Some(value) ==> self.member(name@) == Some(*value),
            found is None ==> self.member(name@) is None,
    {
        match self {
            Json::Object(members) => {
                let wanted = name.to_owned();
                let mut i: usize = 0;
                assert(members@.skip(0) =~= members@);
                while i < members.len()
                    invariant
                        i <= members.len(),
                        wanted@ == name@,
                        self.member(name@) == member_named(members@, name@),
                        member_named(members@, name@) == member_named(
                            members@.skip(i as int),
                            name@,
                        ),
                    decreases members.len() - i,
                {
                    let ghost rest = members@.skip(i as int);
                    assert(rest.len() > 0 && rest[0] == members@[i as int]);
                    assert(rest.drop_first() =~= members@.skip(i as int + 1));
                    if members[i].0 == wanted {
                        assert(member_named(rest, name@) == Some(members@[i as int].1));
                        return Some(&members[i].1);
                    }
                    assert(member_named(rest, name@) == member_named(rest.drop_first(), name@));
                    i = i + 1;
                }
                None
            },
            _ => None,
        }
    }

    /// The characters of a string.
    pub fn as_text(&self) -> (found: Option<&String>)
        ensures
            found matches Some(text) ==> self.text() == Some(text@),
            found is None ==> self.text() is None,
    {
        match self {
            Json::Text(text) => Some(text),
            _ => None,
        }
    }
}

} // verus!
