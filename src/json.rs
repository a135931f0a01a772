//! A plain JSON tree that verified code can read, and the calls into
//! serde_json that produce it from text and turn it back into text.

use vstd::prelude::*;
use crate::text::same_text;

verus! {

/// A JSON value. Integers that fit in `i64` are held as such; every other
/// number keeps serde_json's text for it.
#[derive(Debug, PartialEq)]
pub enum Json {
    Null,
    Bool(bool),
    Int(i64),
    Num(String),
    Str(String),
    Array(Vec<Json>),
    Object(Vec<(String, Json)>),
}

#[verifier::external_type_specification]
#[verifier::external_body]
pub struct ExValue(serde_json::Value);

/// What serde_json makes of a JSON text, as a `Json` tree.
pub uninterp spec fn json_parse(text: Seq<char>) -> Option<Json>;

/// The compact JSON text that serde_json writes for a tree.
pub uninterp spec fn json_text(v: Json) -> Seq<char>;

/// Moves a serde_json value into a `Json` tree, one variant for one.
#[verifier::external_body]
fn from_serde(v: serde_json::Value) -> Json {
    match v {
        serde_json::Value::Null => Json::Null,
        serde_json::Value::Bool(b) => Json::Bool(b),
        serde_json::Value::Number(n) => match n.as_i64() {
            Some(i) => Json::Int(i),
            None => Json::Num(n.to_string()),
        },
        serde_json::Value::String(s) => Json::Str(s),
        serde_json::Value::Array(a) => Json::Array(a.into_iter().map(from_serde).collect()),
        serde_json::Value::Object(o) => Json::Object(o.into_iter().map(|(k, x)| (k, from_serde(x))).collect()),
    }
}

/// Builds the serde_json value of a `Json` tree, one variant for one.
#[verifier::external_body]
fn to_serde(v: &Json) -> serde_json::Value {
    match v {
        Json::Null => serde_json::Value::Null,
        Json::Bool(b) => serde_json::Value::Bool(*b),
        Json::Int(i) => serde_json::Value::from(*i),
        Json::Num(t) => serde_json::from_str(t).unwrap_or(serde_json::Value::Null),
        Json::Str(s) => serde_json::Value::String(s.clone()),
        Json::Array(a) => serde_json::Value::Array(a.iter().map(to_serde).collect()),
        Json::Object(o) => serde_json::Value::Object(o.iter().map(|(k, x)| (k.clone(), to_serde(x))).collect()),
    }
}

/// Relies on `serde_json::from_str::<serde_json::Value>`: `None` when the text
/// is not JSON; the result depends on the text alone.
#[verifier::external_body]
pub fn parse_json(text: &str) -> (r: Option<Json>)
    ensures
        r == json_parse(text@),
{
    serde_json::from_str::<serde_json::Value>(text).ok().map(from_serde)
}

/// Relies on `Display` for `serde_json::Value`: the compact JSON text of the tree.
#[verifier::external_body]
pub fn json_to_text(v: &Json) -> (r: String)
    ensures
        r@ == json_text(*v),
{
    to_serde(v).to_string()
}

/// The value of the first entry named `key`.
pub open spec fn lookup(fields: Seq<(String, Json)>, key: Seq<char>) -> Option<Json>
    decreases fields.len(),
{
    if fields.len() == 0 {
        None
    } else if fields[0].0@ == key {
        Some(fields[0].1)
    } else {
        lookup(fields.drop_first(), key)
    }
}

/// The member `key` of an object; `None` for a missing key or a non-object.
pub open spec fn field_of(v: Json, key: Seq<char>) -> Option<Json> {
    match v {
        Json::Object(fields) => lookup(fields@, key),
        _ => None,
    }
}

/// Looking a key up after appending a member: earlier members win.
pub proof fn lemma_lookup_push(s: Seq<(String, Json)>, k: String, v: Json, key: Seq<char>)
    ensures
        lookup(s.push((k, v)), key) == if lookup(s, key) is Some {
            lookup(s, key)
        } else if k@ == key {
            Some(v)
        } else {
            None
        },
    decreases s.len(),
{
    if s.len() > 0 {
        assert(s.push((k, v)).drop_first() =~= s.drop_first().push((k, v)));
        assert(s.push((k, v))[0] == s[0]);
        lemma_lookup_push(s.drop_first(), k, v, key);
    } else {
        assert(s.push((k, v)).drop_first() =~= Seq::<(String, Json)>::empty());
        assert(s.push((k, v))[0] == (k, v));
        assert(lookup(Seq::<(String, Json)>::empty(), key) is None);
        assert(lookup(s, key) is None);
    }
}

/// Appends the member `key: value` to an object's members.
pub fn push_member(fields: &mut Vec<(String, Json)>, key: &str, value: Json)
    ensures
        final(fields)@.len() == old(fields)@.len() + 1,
        final(fields)@.drop_last() == old(fields)@,
        final(fields)@.last().0@ == key@,
        final(fields)@.last().1 == value,
        forall|q: Seq<char>|
            #[trigger] lookup(final(fields)@, q) == if lookup(old(fields)@, q) is Some {
                lookup(old(fields)@, q)
            } else if key@ == q {
                Some(value)
            } else {
                None
            },
{
    let k = crate::text::owned(key);
    let ghost before = fields@;
    fields.push((k, value));
    assert(fields@.drop_last() =~= before);
    assert forall|q: Seq<char>| #[trigger] lookup(fields@, q) == if lookup(before, q) is Some {
        lookup(before, q)
    } else if key@ == q {
        Some(value)
    } else {
        None
    } by {
        lemma_lookup_push(before, k, value, q);
    }
}

impl Json {
    /// The member `key` of this value when it is an object.
    pub fn get(&self, key: &str) -> (r: Option<&Json>)
        ensures
            r matches Some(x) ==> field_of(*self, key@) == Some(*x),
            r is None ==> field_of(*self, key@) is None,
    {
        match self {
            Json::Object(fields) => {
                let mut i: usize = 0;
                assert(fields@.skip(0) =~= fields@);
                while i < fields.len()
                    invariant
                        i <= fields@.len(),
                        field_of(*self, key@) == lookup(fields@, key@),
                        lookup(fields@, key@) == lookup(fields@.skip(i as int), key@),
                    decreases fields@.len() - i,
                {
                    assert(fields@.skip(i as int).drop_first() =~= fields@.skip(i + 1));
                    assert(fields@.skip(i as int)[0] == fields@[i as int]);
                    if same_text(fields[i].0.as_str(), key) {
                        return Some(&fields[i].1);
                    }
                    i = i + 1;
                }
                None
            },
            _ => None,
        }
    }
}

} // verus!
