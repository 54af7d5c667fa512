//! JSON whose shape belongs to others: single members of an object are read and
//! set, and everything else is kept.
use vstd::prelude::*;
use crate::text::{opt_str, opt_text};

verus! {

/// A JSON value.
#[verifier::external_type_specification]
#[verifier::external_body]
pub struct ExValue(serde_json::Value);

/// The JSON text of a value: what the value holds.
pub uninterp spec fn json_text(v: serde_json::Value) -> Seq<char>;

/// The JSON text of the value that a text stands for; none where it is no JSON.
pub uninterp spec fn json_document(text: Seq<char>) -> Option<Seq<char>>;

/// The members of the object that a JSON text stands for, each by its JSON text;
/// none where it stands for something else.
pub uninterp spec fn json_object(json: Seq<char>) -> Option<Map<Seq<char>, Seq<char>>>;

/// The string that a JSON text stands for, where it is one.
pub uninterp spec fn json_string(json: Seq<char>) -> Option<Seq<char>>;

/// The truth value that a JSON text stands for, where it is one.
pub open spec fn json_flag(json: Seq<char>) -> Option<bool> {
    if json == "true"@ {
        Some(true)
    } else if json == "false"@ {
        Some(false)
    } else {
        None
    }
}

/// The members of an object that has none.
pub open spec fn no_members() -> Map<Seq<char>, Seq<char>> {
    Map::empty()
}

/// The members of an object; something else has none.
pub open spec fn members_of(json: Seq<char>) -> Map<Seq<char>, Seq<char>> {
    match json_object(json) {
        Some(members) => members,
        None => no_members(),
    }
}

/// A member of an object, where it has it.
pub open spec fn member_at(json: Seq<char>, key: Seq<char>) -> Option<Seq<char>> {
    if members_of(json).contains_key(key) {
        Some(members_of(json)[key])
    } else {
        None
    }
}

/// The string in a member, where there is one.
pub open spec fn string_at(json: Seq<char>, key: Seq<char>) -> Option<Seq<char>> {
    match member_at(json, key) {
        Some(member) => json_string(member),
        None => None,
    }
}

/// The truth value in a member, where there is one.
pub open spec fn flag_at(json: Seq<char>, key: Seq<char>) -> Option<bool> {
    match member_at(json, key) {
        Some(member) => json_flag(member),
        None => None,
    }
}

/// `serde_json::from_str` into a `Value`: what the text stands for, a function
/// of the text alone. Why a text is refused is left unsaid.
#[verifier::external_body]
fn parse_json(text: &str) -> (r: Option<serde_json::Value>)
    ensures
        match r {
            Some(v) => json_document(text@) == Some(json_text(v)),
            None => json_document(text@) is None,
        },
{
    serde_json::from_str(text).ok()
}

/// `serde_json::Map::new` as a `Value`: an object without members.
#[verifier::external_body]
fn empty_object() -> (r: serde_json::Value)
    ensures
        json_text(r) == "{}"@,
        json_object(json_text(r)) == Some(no_members()),
{
    serde_json::Value::Object(serde_json::Map::new())
}

/// `serde_json::Value::Null`: no object, no string and no truth value.
#[verifier::external_body]
fn null_value() -> (r: serde_json::Value)
    ensures
        json_text(r) == "null"@,
        json_object(json_text(r)) is None,
        json_string(json_text(r)) is None,
{
    serde_json::Value::Null
}

/// `serde_json::Value::String`: a value that is the string and nothing else.
#[verifier::external_body]
fn string_value(text: &str) -> (r: serde_json::Value)
    ensures
        json_string(json_text(r)) == Some(text@),
        json_flag(json_text(r)) is None,
        json_object(json_text(r)) is None,
{
    serde_json::Value::String(text.to_owned())
}

/// `serde_json::Value::Bool`: a value that is the truth value and nothing else.
#[verifier::external_body]
fn flag_value(flag: bool) -> (r: serde_json::Value)
    ensures
        json_flag(json_text(r)) == Some(flag),
        json_string(json_text(r)) is None,
        json_object(json_text(r)) is None,
{
    serde_json::Value::Bool(flag)
}

/// `serde_json::Value::is_object`.
#[verifier::external_body]
fn is_object(v: &serde_json::Value) -> (r: bool)
    ensures
        r == (json_object(json_text(*v)) is Some),
{
    v.is_object()
}

/// `serde_json::Value::get` with a text: the member, where the value is an
/// object that has it.
#[verifier::external_body]
fn member<'a>(v: &'a serde_json::Value, key: &str) -> (r: Option<&'a serde_json::Value>)
    ensures
        match r {
            Some(m) => member_at(json_text(*v), key@) == Some(json_text(*m)),
            None => member_at(json_text(*v), key@) is None,
        },
{
    v.get(key)
}

/// `serde_json::Value::as_str`: the string, where the value is one.
#[verifier::external_body]
fn as_text(v: &serde_json::Value) -> (r: Option<&str>)
    ensures
        opt_str(r) == json_string(json_text(*v)),
{
    v.as_str()
}

/// `serde_json::Value::as_bool`: the truth value, where the value is one.
#[verifier::external_body]
fn as_flag(v: &serde_json::Value) -> (r: Option<bool>)
    ensures
        r == json_flag(json_text(*v)),
{
    v.as_bool()
}

/// `serde_json::Map::insert` on an object: the member is the given value
/// afterwards, and the other members are as they were.
#[verifier::external_body]
fn insert_member(v: &mut serde_json::Value, key: &str, value: serde_json::Value)
    requires
        json_object(json_text(*old(v))) is Some,
    ensures
        json_object(json_text(*final(v))) == Some(
            members_of(json_text(*old(v))).insert(key@, json_text(value)),
        ),
{
    v.as_object_mut().unwrap().insert(key.to_owned(), value);
}

/// A text or a truth value.
#[derive(Debug, Clone, PartialEq, Eq)]
pub enum Scalar {
    Text(String),
    Flag(bool),
}

/// Whether a JSON text stands for the value and for nothing else.
pub open spec fn stands_for(json: Seq<char>, value: Scalar) -> bool {
    match value {
        Scalar::Text(s) => json_string(json) == Some(s@) && json_flag(json) is None,
        Scalar::Flag(b) => json_flag(json) == Some(b) && json_string(json) is None,
    }
}

impl Scalar {
    /// The value as JSON.
    pub fn to_json(&self) -> (r: serde_json::Value)
        ensures
            stands_for(json_text(r), *self),
    {
        match self {
            Scalar::Text(s) => string_value(s),
            Scalar::Flag(b) => flag_value(*b),
        }
    }
}

/// A JSON value that is kept as it came but for the members that are set.
pub struct Blob {
    pub value: serde_json::Value,
}

impl View for Blob {
    type V = Seq<char>;

    /// Its JSON text.
    open spec fn view(&self) -> Seq<char> {
        json_text(self.value)
    }
}

impl Blob {
    /// An object without members.
    pub fn new() -> (r: Self)
        ensures
            r@ == "{}"@,
            json_object(r@) == Some(no_members()),
    {
        Blob { value: empty_object() }
    }

    /// JSON's null.
    pub fn null() -> (r: Self)
        ensures
            r@ == "null"@,
            json_object(r@) is None,
    {
        Blob { value: null_value() }
    }

    /// What a JSON text stands for; nothing where it is no JSON.
    pub fn parse(text: &str) -> (r: Option<Self>)
        ensures
            match r {
                Some(b) => json_document(text@) == Some(b@),
                None => json_document(text@) is None,
            },
    {
        match parse_json(text) {
            Some(value) => Some(Blob { value }),
            None => None,
        }
    }

    /// The string in a member, where there is one.
    pub fn text(&self, key: &str) -> (r: Option<String>)
        ensures
            opt_text(r) == string_at(self@, key@),
    {
        match member(&self.value, key) {
            Some(m) => match as_text(m) {
                Some(s) => Some(s.to_owned()),
                None => None,
            },
            None => None,
        }
    }

    /// The truth value in a member, where there is one.
    pub fn flag(&self, key: &str) -> (r: Option<bool>)
        ensures
            r == flag_at(self@, key@),
    {
        match member(&self.value, key) {
            Some(m) => as_flag(m),
            None => None,
        }
    }

    /// Sets a member and keeps the others. A value that is no object gives way
    /// to an object with this member alone.
    pub fn set(&mut self, key: &str, value: serde_json::Value)
        ensures
            json_object(final(self)@) == Some(
                members_of(old(self)@).insert(key@, json_text(value)),
            ),
    {
        if !is_object(&self.value) {
            self.value = empty_object();
        }
        insert_member(&mut self.value, key, value);
    }
}

/// What is written to a member is read back from it, and no other member
/// changes. `after` is an object after a member of `before` was set.
pub proof fn members_read_back(
    before: Seq<char>,
    after: Seq<char>,
    key: Seq<char>,
    value: Seq<char>,
    other: Seq<char>,
)
    requires
        json_object(after) == Some(members_of(before).insert(key, value)),
    ensures
        member_at(after, key) == Some(value),
        string_at(after, key) == json_string(value),
        flag_at(after, key) == json_flag(value),
        other != key ==> member_at(after, other) == member_at(before, other),
        other != key ==> string_at(after, other) == string_at(before, other),
        other != key ==> flag_at(after, other) == flag_at(before, other),
{
}

} // verus!
