//! JSON documents as the scrapers read them.
use vstd::prelude::*;

verus! {

/// serde_json's JSON number, which a number of a `Json` value is held as.
/// The logic never reads a number; it only carries one through.
#[verifier::external_type_specification]
#[verifier::external_body]
pub struct ExSerdeNumber(serde_json::Number);

/// A JSON value. An object keeps its members in order.
pub enum Json {
    Null,
    Bool(bool),
    Number(serde_json::Number),
    String(String),
    Array(Vec<Json>),
    Object(Vec<(String, Json)>),
}

/// The position of the first member of `entries` named `key`.
pub open spec fn first_key(entries: Seq<(String, Json)>, key: Seq<char>) -> Option<int>
    decreases entries.len(),
{
    if entries.len() == 0 {
        None
    } else if entries[0].0@ == key {
        Some(0)
    } else {
        match first_key(entries.drop_first(), key) {
            Some(i) => Some(i + 1),
            None => None,
        }
    }
}

proof fn lemma_first_key(entries: Seq<(String, Json)>, key: Seq<char>, i: int)
    requires
        0 <= i <= entries.len(),
        forall|j: int| 0 <= j < i ==> entries[j].0@ != key,
    ensures
        i < entries.len() && entries[i].0@ == key ==> first_key(entries, key) == Some(i),
        i == entries.len() ==> first_key(entries, key) is None,
    decreases i,
{
    if i > 0 {
        let rest = entries.drop_first();
        assert forall|j: int| 0 <= j < i - 1 implies rest[j].0@ != key by {
            assert(rest[j] == entries[j + 1]);
        }
        lemma_first_key(rest, key, i - 1);
    }
}

impl Json {
    /// The member named `key`, when this is an object that has one.
    pub open spec fn field(self, key: Seq<char>) -> Option<Json> {
        match self {
            Json::Object(entries) => match first_key(entries@, key) {
                Some(i) => Some(entries@[i].1),
                None => None,
            },
            _ => None,
        }
    }

    /// The text, when this is a string.
    pub open spec fn text(self) -> Option<Seq<char>> {
        match self {
            Json::String(s) => Some(s@),
            _ => None,
        }
    }

    /// The items, when this is an array.
    pub open spec fn items(self) -> Option<Seq<Json>> {
        match self {
            Json::Array(v) => Some(v@),
            _ => None,
        }
    }

    /// The boolean, when this is one.
    pub open spec fn flag(self) -> Option<bool> {
        match self {
            Json::Bool(b) => Some(b),
            _ => None,
        }
    }

    /// The member named `key` (`serde_json::Value::get` with a text index).
    pub fn get(&self, key: &str) -> (res: Option<&Json>)
        ensures
            match res {
                Some(r) => self.field(key@) == Some(*r),
                None => self.field(key@) is None,
            },
    {
        match self {
            Json::Object(entries) => {
                let k = key.to_owned();
                let n = entries.len();
                for i in 0..n
                    invariant
                        n == entries@.len(),
                        k@ == key@,
                        *self == Json::Object(*entries),
                        forall|j: int| 0 <= j < i ==> entries@[j].0@ != key@,
                {
                    if entries[i].0 == k {
                        proof {
                            lemma_first_key(entries@, key@, i as int);
                        }
                        return Some(&entries[i].1);
                    }
                }
                proof {
                    lemma_first_key(entries@, key@, n as int);
                }
                None
            },
            _ => None,
        }
    }

    /// The text, when this is a string.
    pub fn as_str(&self) -> (res: Option<&str>)
        ensures
            match res {
                Some(s) => self.text() == Some(s@),
                None => self.text() is None,
            },
    {
        match self {
            Json::String(s) => Some(s.as_str()),
            _ => None,
        }
    }

    /// The items, when this is an array.
    pub fn as_array(&self) -> (res: Option<&Vec<Json>>)
        ensures
            match res {
                Some(v) => self.items() == Some(v@),
                None => self.items() is None,
            },
    {
        match self {
            Json::Array(v) => Some(v),
            _ => None,
        }
    }

    /// The boolean, when this is one.
    pub fn as_bool(&self) -> (res: Option<bool>)
        ensures
            res == self.flag(),
    {
        match self {
            Json::Bool(b) => Some(*b),
            _ => None,
        }
    }
}

/// serde_json's JSON value, which the text of a `Json` is taken from.
#[verifier::external_type_specification]
#[verifier::external_body]
pub struct ExSerdeValue(serde_json::Value);

/// The `serde_json::Value` that holds what `v` holds, member for member.
/// It only changes the representation of `v` for `serde_text`.
#[verifier::external_body]
fn serde_value_of(v: &Json) -> serde_json::Value {
    match v {
        Json::Null => serde_json::Value::Null,
        Json::Bool(b) => serde_json::Value::Bool(*b),
        Json::Number(n) => serde_json::Value::Number(n.clone()),
        Json::String(s) => serde_json::Value::String(s.clone()),
        Json::Array(items) => serde_json::Value::Array(items.iter().map(serde_value_of).collect()),
        Json::Object(members) => serde_json::Value::Object(
            members.iter().map(|(k, m)| (k.clone(), serde_value_of(m))).collect(),
        ),
    }
}

/// The `Json` that holds what `v` holds, member for member (an object's
/// members in the order serde_json keeps them). It only changes the
/// representation of what `parse_json` read.
#[verifier::external_body]
fn json_of_value(v: serde_json::Value) -> Json {
    match v {
        serde_json::Value::Null => Json::Null,
        serde_json::Value::Bool(b) => Json::Bool(b),
        serde_json::Value::Number(n) => Json::Number(n),
        serde_json::Value::String(s) => Json::String(s),
        serde_json::Value::Array(items) => Json::Array(items.into_iter().map(json_of_value).collect()),
        serde_json::Value::Object(members) => Json::Object(
            members.into_iter().map(|(k, m)| (k, json_of_value(m))).collect(),
        ),
    }
}

/// The JSON value that `serde_json::from_str::<serde_json::Value>` reads
/// from `text`, or the `Display` text of the error with which it refuses it.
pub uninterp spec fn parsed_json(text: Seq<char>) -> Result<Json, Seq<char>>;

/// Reads `text` with `serde_json::from_str` into a `serde_json::Value` and
/// holds it as a `Json`, or gives the error's message. What it reads is
/// named `parsed_json`; nothing more is stated of it.
#[verifier::external_body]
pub(crate) fn parse_json(text: &str) -> (res: Result<Json, String>)
    ensures
        match parsed_json(text@) {
            Ok(j) => res == Ok::<Json, String>(j),
            Err(e) => res matches Err(t) && t@ == e,
        },
{
    match serde_json::from_str::<serde_json::Value>(text) {
        Ok(v) => Ok(json_of_value(v)),
        Err(e) => Err(e.to_string()),
    }
}

/// The compact JSON text of `v` that serde_json writes (its `Display`).
pub uninterp spec fn json_text_of(v: Json) -> Seq<char>;

/// Writes `v` as JSON text with `serde_json::Value`'s `to_string`. What it
/// writes is named `json_text_of`; nothing more is stated of it.
#[verifier::external_body]
fn serde_text(v: &Json) -> (res: String)
    ensures
        res@ == json_text_of(*v),
{
    serde_value_of(v).to_string()
}

impl Json {
    /// The compact JSON text of the value.
    pub fn to_text(&self) -> (res: String)
        ensures
            res@ == json_text_of(*self),
    {
        serde_text(self)
    }
}

} // verus!
