//! A JSON document as plain values, for the launcher's manifest lookups,
//! and reading and printing JSON text through `serde_json`. Numbers are
//! carried as `serde_json` numbers, which the lookups never read.

use vstd::prelude::*;
use crate::text::text_equal;

verus! {

/// A number as `serde_json` holds it.
#[verifier::external_type_specification]
#[verifier::external_body]
pub struct ExJsonNumber(serde_json::Number);

/// A parsed document as `serde_json` holds it.
#[verifier::external_type_specification]
#[verifier::external_body]
pub struct ExJsonValue(serde_json::Value);

/// A JSON value. An object lists its members in order; when a key occurs
/// more than once, the last member with it counts, for lookups as for
/// printing (as `serde_json` also keeps the last of repeated keys).
pub enum Json {
    Null,
    Bool(bool),
    Number(serde_json::Number),
    Str(String),
    Array(Vec<Json>),
    Object(Vec<(String, Json)>),
}

/// The value of the last member named `key`.
pub open spec fn member_lookup(members: Seq<(String, Json)>, key: Seq<char>) -> Option<Json>
    decreases members.len(),
{
    if members.len() == 0 {
        None
    } else if members.last().0@ == key {
        Some(members.last().1)
    } else {
        member_lookup(members.drop_last(), key)
    }
}

/// The member `key` of an object; nothing for any other value.
pub open spec fn json_get(v: Json, key: Seq<char>) -> Option<Json> {
    match v {
        Json::Object(members) => member_lookup(members@, key),
        _ => None,
    }
}

/// The text of a string value.
pub open spec fn json_str(v: Json) -> Option<Seq<char>> {
    match v {
        Json::Str(s) => Some(s@),
        _ => None,
    }
}

/// The items of an array value.
pub open spec fn json_array(v: Json) -> Option<Seq<Json>> {
    match v {
        Json::Array(items) => Some(items@),
        _ => None,
    }
}

/// The text of member `key`, when it is a string.
pub open spec fn json_get_str(v: Json, key: Seq<char>) -> Option<Seq<char>> {
    match json_get(v, key) {
        Some(m) => json_str(m),
        None => None,
    }
}

impl Json {
    /// Member `key` of an object.
    pub fn get(&self, key: &str) -> (r: Option<&Json>)
        ensures
            match r {
                Some(m) => json_get(*self, key@) == Some(*m),
                None => json_get(*self, key@).is_none(),
            },
    {
        match self {
            Json::Object(members) => {
                let mut i: usize = members.len();
                assert(members@.take(i as int) =~= members@);
                while i > 0
                    invariant
                        i <= members.len(),
                        json_get(*self, key@) == member_lookup(members@, key@),
                        member_lookup(members@, key@) == member_lookup(members@.take(i as int), key@),
                    decreases i,
                {
                    assert(members@.take(i as int).drop_last() =~= members@.take(i - 1));
                    assert(members@.take(i as int).last() == members@[i - 1]);
                    if text_equal(members[i - 1].0.as_str(), key) {
                        return Some(&members[i - 1].1);
                    }
                    i = i - 1;
                }
                None
            },
            _ => None,
        }
    }

    /// The text of a string value.
    pub fn as_str(&self) -> (r: Option<&String>)
        ensures
            match r {
                Some(s) => json_str(*self) == Some(s@),
                None => json_str(*self).is_none(),
            },
    {
        match self {
            Json::Str(s) => Some(s),
            _ => None,
        }
    }

    /// The items of an array value.
    pub fn as_array(&self) -> (r: Option<&Vec<Json>>)
        ensures
            match r {
                Some(items) => json_array(*self) == Some(items@),
                None => json_array(*self).is_none(),
            },
    {
        match self {
            Json::Array(items) => Some(items),
            _ => None,
        }
    }

    /// The text of member `key`, when it is a string.
    pub fn get_str(&self, key: &str) -> (r: Option<&String>)
        ensures
            match r {
                Some(s) => json_get_str(*self, key@) == Some(s@),
                None => json_get_str(*self, key@).is_none(),
            },
    {
        match self.get(key) {
            Some(m) => m.as_str(),
            None => None,
        }
    }
}

/// The outcome of `serde_json::from_str` reading `text` as a document:
/// the document, or the text of the error it reports.
pub uninterp spec fn json_text_parse(text: Seq<char>) -> Result<Json, Seq<char>>;

/// The text `serde_json::to_string_pretty` prints for the document `v`.
pub uninterp spec fn pretty_json(v: Json) -> Seq<char>;

/// The same document as a `Json` value, member for member and item for
/// item. Claims nothing; only the wrappers below call it.
#[verifier::external_body]
fn json_from_value(v: &serde_json::Value) -> Json {
    match v {
        serde_json::Value::Null => Json::Null,
        serde_json::Value::Bool(b) => Json::Bool(*b),
        serde_json::Value::Number(n) => Json::Number(n.clone()),
        serde_json::Value::String(s) => Json::Str(s.clone()),
        serde_json::Value::Array(a) => Json::Array(a.iter().map(json_from_value).collect()),
        serde_json::Value::Object(m) => Json::Object(m.iter().map(|(k, x)| (k.clone(), json_from_value(x))).collect()),
    }
}

/// The same document as a `serde_json::Value`, member for member and item
/// for item. Claims nothing; only the wrappers below call it.
#[verifier::external_body]
fn value_from_json(v: &Json) -> serde_json::Value {
    match v {
        Json::Null => serde_json::Value::Null,
        Json::Bool(b) => serde_json::Value::Bool(*b),
        Json::Number(n) => serde_json::Value::Number(n.clone()),
        Json::Str(s) => serde_json::Value::String(s.clone()),
        Json::Array(a) => serde_json::Value::Array(a.iter().map(value_from_json).collect()),
        Json::Object(m) => serde_json::Value::Object(m.iter().map(|(k, x)| (k.clone(), value_from_json(x))).collect()),
    }
}

/// Calls `serde_json::from_str` for a `serde_json::Value`. Claims: the
/// outcome (the document, or the error's text) is `json_text_parse` of the
/// text, a function of the text alone.
#[verifier::external_body]
pub(crate) fn parse_json_text(text: &str) -> (r: Result<Json, String>)
    ensures
        match r {
            Ok(j) => json_text_parse(text@) == Ok::<Json, Seq<char>>(j),
            Err(e) => json_text_parse(text@) == Err::<Json, Seq<char>>(e@),
        },
{
    match serde_json::from_str::<serde_json::Value>(text) {
        Ok(v) => Ok(json_from_value(&v)),
        Err(e) => Err(e.to_string()),
    }
}

/// Calls `serde_json::to_string_pretty` on the document. Claims: the text
/// is `pretty_json` of the document. Printing a `serde_json::Value` does
/// not fail (its map keys are strings), so the error arm is never taken.
#[verifier::external_body]
fn pretty_json_text(v: &Json) -> (r: String)
    ensures
        r@ == pretty_json(*v),
{
    match serde_json::to_string_pretty(&value_from_json(v)) {
        Ok(s) => s,
        Err(_) => String::new(),
    }
}

/// The pretty-printed text of a document, as saved to disk.
pub fn print_json(v: &Json) -> (r: String)
    ensures
        r@ == pretty_json(*v),
{
    pretty_json_text(v)
}

/// A lookup by key finds nothing exactly when no member has that key, and
/// otherwise finds the value of the last member with that key.
pub proof fn law_member_lookup_last_match(members: Seq<(String, Json)>, key: Seq<char>)
    ensures
        member_lookup(members, key).is_none() <==> forall|i: int|
            0 <= i < members.len() ==> (#[trigger] members[i]).0@ != key,
        forall|i: int|
            0 <= i < members.len() && (#[trigger] members[i]).0@ == key && (forall|j: int|
                i < j < members.len() ==> members[j].0@ != key) ==> member_lookup(members, key) == Some(
                members[i].1,
            ),
    decreases members.len(),
{
    if members.len() > 0 {
        let rest = members.drop_last();
        law_member_lookup_last_match(rest, key);
        assert forall|i: int| 0 <= i < rest.len() implies rest[i] == members[i] by {}
        if members.last().0@ != key {
            assert forall|i: int|
                0 <= i < members.len() && (#[trigger] members[i]).0@ == key && (forall|j: int|
                    i < j < members.len() ==> members[j].0@ != key) implies member_lookup(members, key) == Some(
                members[i].1,
            ) by {
                assert(i < members.len() - 1);
                assert(rest[i] == members[i]);
                assert forall|j: int| i < j < rest.len() implies rest[j].0@ != key by {
                    assert(rest[j] == members[j]);
                }
            }
            if member_lookup(members, key).is_none() {
                assert forall|i: int| 0 <= i < members.len() implies (#[trigger] members[i]).0@ != key by {
                    if i < members.len() - 1 {
                        assert(rest[i] == members[i]);
                    }
                }
            } else {
                let i = choose|i: int| 0 <= i < rest.len() && (#[trigger] rest[i]).0@ == key;
                assert(members[i] == rest[i]);
            }
        } else {
            assert(members[members.len() - 1].0@ == key);
        }
    }
}

} // verus!
