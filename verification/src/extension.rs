//! The Extensions a dataset declares.
//!
//! A CityJSON dataset names the Extensions it uses in the member
//! `extensions` of its root object: one member for each Extension, whose
//! value is an object with the URL of the schema under `url`.

use vstd::prelude::*;
use crate::json::{parse_json, parsed_json, Json};
use crate::text::optional_text;

verus! {

/// One member of `extensions`: the name of an Extension and the URL it gives
/// for its schema, `None` where it gives none as a string.
#[derive(Debug, PartialEq, Eq)]
pub struct Declaration {
    pub name: String,
    pub url: Option<String>,
}

/// What a dataset says of its Extensions.
#[derive(Debug, PartialEq, Eq)]
pub enum Declared {
    /// The dataset is not JSON.
    Unreadable,
    /// The dataset is JSON, but its root is no object.
    RootNotObject,
    /// The root object has no member `extensions`.
    Absent,
    /// The member `extensions` is no object.
    NotAnObject,
    /// The members of `extensions`, in the order of the object.
    Listed(Vec<Declaration>),
}

/// The URL that one member of `extensions` gives: the string under `url`.
pub open spec fn declared_url(entry: Json) -> Option<Seq<char>> {
    match entry.member("url"@) {
        Some(value) => value.text(),
        None => None,
    }
}

/// The declarations are the members, one for one and in their order.
pub open spec fn lists(declarations: Seq<Declaration>, members: Seq<(String, Json)>) -> bool {
    &&& declarations.len() == members.len()
    &&& forall|i: int|
        0 <= i < declarations.len() ==> {
            &&& (#[trigger] declarations[i]).name@ == members[i].0@
            &&& optional_text(declarations[i].url) == declared_url(members[i].1)
        }
}

/// What the root of a dataset says of its Extensions.
pub open spec fn declares(root: Json, declared: Declared) -> bool {
    match root.members() {
        None => declared is RootNotObject,
        Some(_) => match root.member("extensions"@) {
            None => declared is Absent,
            Some(extensions) => match extensions.members() {
                None => declared is NotAnObject,
                Some(members) => declared matches Declared::Listed(declarations) && lists(
                    declarations@,
                    members,
                ),
            },
        },
    }
}

/// What a dataset, once read, says of its Extensions.
pub open spec fn declares_when_read(json: Option<Json>, declared: Declared) -> bool {
    match json {
        None => declared is Unreadable,
        Some(root) => declares(root, declared),
    }
}

/// The URL that one member of `extensions` gives.
fn url_of(entry: &Json) -> (url: Option<String>)
    ensures
        optional_text(url) == declared_url(*entry),
{
    match entry.get("url") {
        None => None,
        Some(value) => match value.as_text() {
            None => None,
            Some(text) => Some(text.clone()),
        },
    }
}

/// Reads the declarations off the root of a dataset.
pub fn declared_in(root: &Json) -> (declared: Declared)
    ensures
        declares(*root, declared),
{
    match root {
        Json::Object(_) => {},
        _ => {
            return Declared::RootNotObject;
        },
    }
    let extensions = match root.get("extensions") {
        None => {
            return Declared::Absent;
        },
        Some(extensions) => extensions,
    };
    match extensions {
        Json::Object(members) => {
            let mut declarations: Vec<Declaration> = Vec::new();
            let mut i: usize = 0;
            while i < members.len()
                invariant
                    i <= members.len(),
                    declarations@.len() == i,
                    forall|k: int|
                        0 <= k < i ==> {
                            &&& (#[trigger] declarations@[k]).name@ == members@[k].0@
                            &&& optional_text(declarations@[k].url) == declared_url(
                                members@[k].1,
                            )
                        },
                decreases members.len() - i,
            {
                let name = members[i].0.clone();
                let url = url_of(&members[i].1);
                declarations.push(Declaration { name, url });
                i = i + 1;
            }
            Declared::Listed(declarations)
        },
        _ => Declared::NotAnObject,
    }
}

/// Reads a dataset and says what it declares. A dataset that is not JSON
/// declares nothing that could be fetched; that it cannot be read is for the
/// first stage of the run to report.
pub fn declared_extensions(document: &str) -> (declared: Declared)
    ensures
        declares_when_read(parsed_json(document@), declared),
{
    match parse_json(document) {
        Err(_) => Declared::Unreadable,
        Ok(root) => declared_in(&root),
    }
}

impl Declared {
    /// The line that tells why nothing is fetched: one when the dataset could
    /// not be read, another when it declares no Extensions at all.
    pub open spec fn notice_text(self) -> Option<Seq<char>> {
        match self {
            Declared::Unreadable => Some("Error from the string"@),
            Declared::Absent => Some("\t- NONE"@),
            _ => None,
        }
    }

    /// The line to print before anything is fetched, if there is one.
    pub fn notice(&self) -> (line: Option<&'static str>)
        ensures
            line matches Some(text) ==> self.notice_text() == Some(text@),
            line is None ==> self.notice_text() is None,
    {
        match self {
            Declared::Unreadable => Some("Error from the string"),
            Declared::Absent => Some("\t- NONE"),
            _ => None,
        }
    }

    /// The Extensions to fetch: those listed; none where the dataset could
    /// not be read or has no member `extensions`. `None` where the dataset
    /// declares its Extensions in a shape that cannot be followed.
    pub fn declarations(self) -> (list: Option<Vec<Declaration>>)
        ensures
            self matches Declared::Listed(declarations) ==> list == Some(declarations),
            (self is Unreadable || self is Absent) ==> (list is Some && list->0@.len() == 0),
            (self is RootNotObject || self is NotAnObject) ==> list is None,
    {
        match self {
            Declared::Listed(declarations) => Some(declarations),
            Declared::Unreadable | Declared::Absent => Some(Vec::new()),
            Declared::RootNotObject | Declared::NotAnObject => None,
        }
    }
}

} // verus!
