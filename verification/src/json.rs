//! JSON documents as the bridge reads them.
//!
//! Decoding is left to `serde_json`. What it decodes is copied into [`Json`],
//! a document type of this crate, so that the lookups made on a document are
//! verified code over a known model, [`JsonValue`].

use vstd::prelude::*;

verus! {

/// A JSON document.
#[derive(Debug, PartialEq, Eq)]
pub enum Json {
    Null,
    Bool(bool),
    /// A number, with its value where that is an integer of 64 signed bits.
    /// Any other number (a fraction, or an integer beyond that range) holds
    /// `None`.
    Number(Option<i64>),
    String(String),
    Array(Vec<Json>),
    /// The members of an object, each under its key.
    Object(Vec<(String, Json)>),
}

/// The mathematical value of a [`Json`] document.
pub ghost enum JsonValue {
    Null,
    Bool(bool),
    Number(Option<i64>),
    String(Seq<char>),
    Array(Seq<JsonValue>),
    Object(Seq<(Seq<char>, JsonValue)>),
}

/// The member stored under `key`: the first one in `members` with that key.
pub open spec fn member(members: Seq<(Seq<char>, JsonValue)>, key: Seq<char>) -> Option<JsonValue>
    decreases members.len(),
{
    if members.len() == 0 {
        None
    } else if members[0].0 == key {
        Some(members[0].1)
    } else {
        member(members.drop_first(), key)
    }
}

impl JsonValue {
    /// The member under `key` of an object; `None` for a missing key and for
    /// any value that is not an object.
    pub open spec fn get(self, key: Seq<char>) -> Option<JsonValue> {
        match self {
            JsonValue::Object(members) => member(members, key),
            _ => None,
        }
    }

    /// The value of a number that is an integer of 64 signed bits; `None` for
    /// any other value.
    pub open spec fn as_i64(self) -> Option<i64> {
        match self {
            JsonValue::Number(n) => n,
            _ => None,
        }
    }
}

/// The views of the members of an object, in order.
pub open spec fn members_view(members: Seq<(String, Json)>) -> Seq<(Seq<char>, JsonValue)>
    decreases members,
{
    Seq::new(
        members.len(),
        |i: int|
            if 0 <= i < members.len() {
                (members[i].0@, members[i].1@)
            } else {
                (Seq::empty(), JsonValue::Null)
            },
    )
}

/// The views of the items of an array, in order.
pub open spec fn items_view(items: Seq<Json>) -> Seq<JsonValue>
    decreases items,
{
    Seq::new(
        items.len(),
        |i: int|
            if 0 <= i < items.len() {
                items[i]@
            } else {
                JsonValue::Null
            },
    )
}

impl View for Json {
    type V = JsonValue;

    open spec fn view(&self) -> JsonValue
        decreases self,
    {
        match self {
            Json::Null => JsonValue::Null,
            Json::Bool(b) => JsonValue::Bool(*b),
            Json::Number(n) => JsonValue::Number(*n),
            Json::String(s) => JsonValue::String(s@),
            Json::Array(items) => JsonValue::Array(items_view(items@)),
            Json::Object(members) => JsonValue::Object(members_view(members@)),
        }
    }
}

impl DeepView for Json {
    type V = JsonValue;

    open spec fn deep_view(&self) -> JsonValue {
        self@
    }
}

/// Looking a key up in the members from `from` on gives what the members
/// after `from` give, unless the member at `from` has the key.
proof fn member_unfolds(members: Seq<(Seq<char>, JsonValue)>, key: Seq<char>, from: int)
    requires
        0 <= from < members.len(),
    ensures
        member(members.subrange(from, members.len() as int), key) == if members[from].0 == key {
            Some(members[from].1)
        } else {
            member(members.subrange(from + 1, members.len() as int), key)
        },
{
    let rest = members.subrange(from, members.len() as int);
    assert(rest.drop_first() =~= members.subrange(from + 1, members.len() as int));
}

/// `serde_json::Value`, the document type that `serde_json` decodes into. It
/// is only passed from the decoder to the copy into [`Json`].
#[verifier::external_type_specification]
#[verifier::external_body]
pub struct ExValue(serde_json::Value);

/// The document that `serde_json::from_str` decodes from `text`, or `None`
/// where it rejects the text.
pub uninterp spec fn parsed_json(text: Seq<char>) -> Option<JsonValue>;

/// Decodes `text` with `serde_json::from_str::<serde_json::Value>`.
///
/// Trusted: the result is what `serde_json` makes of the text, `None` where
/// it reports an error. Nothing is claimed about which texts it accepts.
#[verifier::external_body]
pub(crate) fn parse(text: &str) -> (document: Option<Json>)
    ensures
        document.deep_view() == parsed_json(text@),
{
    match serde_json::from_str::<serde_json::Value>(text) {
        Ok(value) => Some(from_value(value)),
        Err(_) => None,
    }
}

/// Copies a `serde_json::Value` into a [`Json`], variant by variant.
///
/// Trusted: a number is read with `serde_json::Number::as_i64`, and the
/// members of an object come in the order in which `serde_json::Map` hands
/// them out, each key once.
#[verifier::external_body]
fn from_value(value: serde_json::Value) -> Json {
    match value {
        serde_json::Value::Null => Json::Null,
        serde_json::Value::Bool(b) => Json::Bool(b),
        serde_json::Value::Number(n) => Json::Number(n.as_i64()),
        serde_json::Value::String(s) => Json::String(s),
        serde_json::Value::Array(items) => Json::Array(items.into_iter().map(from_value).collect()),
        serde_json::Value::Object(members) => Json::Object(
            members.into_iter().map(|(key, member)| (key, from_value(member))).collect(),
        ),
    }
}

impl Json {
    /// The member under `key`, where this document is an object that has one.
    pub fn get(&self, key: &str) -> (found: Option<&Json>)
        ensures
            found.deep_view() == self@.get(key@),
    {
        match self {
            Json::Object(members) => {
                let wanted = key.to_owned();
                let ghost all = members_view(members@);
                let mut at: usize = 0;
                assert(all.subrange(0, all.len() as int) =~= all);
                while at < members.len()
                    invariant
                        at <= members.len(),
                        self@ == JsonValue::Object(all),
                        all == members_view(members@),
                        wanted@ == key@,
                        member(all, key@) == member(all.subrange(at as int, all.len() as int), key@),
                    decreases members.len() - at,
                {
                    proof {
                        member_unfolds(all, key@, at as int);
                    }
                    if members[at].0 == wanted {
                        return Some(&members[at].1);
                    }
                    at += 1;
                }
                None
            },
            _ => None,
        }
    }

    /// Whether this document is an object.
    pub fn is_object(&self) -> (b: bool)
        ensures
            b == (self@ is Object),
    {
        match self {
            Json::Object(_) => true,
            _ => false,
        }
    }

    /// The value of this document where it is a number that is an integer of
    /// 64 signed bits.
    pub fn as_i64(&self) -> (value: Option<i64>)
        ensures
            value == self@.as_i64(),
    {
        match self {
            Json::Number(n) => *n,
            _ => None,
        }
    }
}

} // verus!
