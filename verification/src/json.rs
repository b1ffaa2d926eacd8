//! JSON values as the agent pipeline reads them from model replies.
//!
//! Text is parsed by `serde_json`; the result is held in [`JsonValue`], a
//! plain value of this library, and read by verified lookups.

use vstd::prelude::*;
use crate::text::{own, str_eq, views};

verus! {

/// A parsed JSON value.
///
/// A `Number` keeps its value when it is a non-negative integer that fits a
/// `u64` (what `serde_json::Value::as_u64` gives), `None` for any other
/// number, and in every case its text as `serde_json` prints it. Object
/// entries keep the order in which the parsed map yields them.
#[derive(Debug)]
pub enum JsonValue {
    Null,
    Bool(bool),
    Number { value: Option<u64>, text: String },
    Str(String),
    Array(Vec<JsonValue>),
    Object(Vec<(String, JsonValue)>),
}

#[verifier::external_type_specification]
#[verifier::external_body]
pub struct ExSerdeJsonValue(serde_json::Value);

/// The value that `serde_json::from_str::<serde_json::Value>` gives for a
/// text, held as a [`JsonValue`]; `None` when the text is not valid JSON.
pub uninterp spec fn json_parse(text: Seq<char>) -> Option<JsonValue>;

/// Parses `text` with `serde_json::from_str::<serde_json::Value>`.
///
/// The contract names the result: it is [`json_parse`] of the text, so two
/// parses of the same text agree. Nothing else about the parse is claimed.
#[verifier::external_body]
pub(crate) fn parse_json(text: &str) -> (res: Option<JsonValue>)
    ensures
        res == json_parse(text@),
{
    match serde_json::from_str::<serde_json::Value>(text) {
        Ok(v) => Some(from_serde(v)),
        Err(_) => None,
    }
}

/// Moves a `serde_json::Value` into a [`JsonValue`], variant by variant.
/// It states nothing; only [`parse_json`] calls it.
#[verifier::external_body]
fn from_serde(v: serde_json::Value) -> JsonValue {
    match v {
        serde_json::Value::Null => JsonValue::Null,
        serde_json::Value::Bool(b) => JsonValue::Bool(b),
        serde_json::Value::Number(n) => JsonValue::Number { value: n.as_u64(), text: n.to_string() },
        serde_json::Value::String(s) => JsonValue::Str(s),
        serde_json::Value::Array(a) => JsonValue::Array(a.into_iter().map(from_serde).collect()),
        serde_json::Value::Object(m) => JsonValue::Object(
            m.into_iter().map(|(k, x)| (k, from_serde(x))).collect(),
        ),
    }
}

/// The value of the first entry named `key`.
pub open spec fn entries_get(es: Seq<(String, JsonValue)>, key: Seq<char>) -> Option<JsonValue>
    decreases es.len(),
{
    if es.len() == 0 {
        None
    } else if es[0].0@ == key {
        Some(es[0].1)
    } else {
        entries_get(es.drop_first(), key)
    }
}

/// `Value::get(key)`: the member `key` of an object, `None` for anything
/// else.
pub open spec fn json_get(v: JsonValue, key: Seq<char>) -> Option<JsonValue> {
    match v {
        JsonValue::Object(es) => entries_get(es@, key),
        _ => None,
    }
}

/// `as_bool` of an optional value.
pub open spec fn json_bool(v: Option<JsonValue>) -> Option<bool> {
    match v {
        Some(JsonValue::Bool(b)) => Some(b),
        _ => None,
    }
}

/// `as_str` of an optional value.
pub open spec fn json_str(v: Option<JsonValue>) -> Option<Seq<char>> {
    match v {
        Some(JsonValue::Str(s)) => Some(s@),
        _ => None,
    }
}

/// `as_u64` of an optional value.
pub open spec fn json_u64(v: Option<JsonValue>) -> Option<u64> {
    match v {
        Some(JsonValue::Number { value, .. }) => value,
        _ => None,
    }
}

/// `opt.unwrap_or(default)` for a text.
pub open spec fn str_or(v: Option<Seq<char>>, default: Seq<char>) -> Seq<char> {
    match v {
        Some(s) => s,
        None => default,
    }
}

/// `opt.unwrap_or(default)` for a flag.
pub open spec fn bool_or(v: Option<bool>, default: bool) -> bool {
    match v {
        Some(b) => b,
        None => default,
    }
}

/// The item is a JSON string.
pub open spec fn is_json_str(v: JsonValue) -> bool {
    v is Str
}

/// The text of a JSON string (empty for anything else).
pub open spec fn str_text(v: JsonValue) -> Seq<char> {
    match v {
        JsonValue::Str(s) => s@,
        _ => Seq::empty(),
    }
}

/// What `serde_json::from_value::<Vec<String>>` gives: the texts of an
/// array whose items are all strings.
pub open spec fn json_strings(v: JsonValue) -> Option<Seq<Seq<char>>> {
    match v {
        JsonValue::Array(items) => if forall|i: int|
            0 <= i < items@.len() ==> #[trigger] is_json_str(items@[i]) {
            Some(items@.map_values(|x: JsonValue| str_text(x)))
        } else {
            None
        },
        _ => None,
    }
}

impl JsonValue {
    /// The member `key` of an object (`Value::get`).
    pub fn get(&self, key: &str) -> (res: Option<&JsonValue>)
        ensures
            match res {
                Some(r) => json_get(*self, key@) == Some(*r),
                None => json_get(*self, key@) is None,
            },
    {
        match self {
            JsonValue::Object(es) => {
                let mut i: usize = 0;
                assert(es@.subrange(0, es@.len() as int) == es@);
                while i < es.len()
                    invariant
                        i <= es@.len(),
                        *self == JsonValue::Object(*es),
                        entries_get(es@, key@) == entries_get(
                            es@.subrange(i as int, es@.len() as int),
                            key@,
                        ),
                    decreases es@.len() - i,
                {
                    let ghost rest = es@.subrange(i as int, es@.len() as int);
                    assert(rest[0] == es@[i as int]);
                    if str_eq(es[i].0.as_str(), key) {
                        return Some(&es[i].1);
                    }
                    assert(rest.drop_first() == es@.subrange(i + 1, es@.len() as int));
                    i += 1;
                }
                None
            },
            _ => None,
        }
    }

    /// The flag, when this is a boolean (`Value::as_bool`).
    pub fn as_bool(&self) -> (res: Option<bool>)
        ensures
            res == json_bool(Some(*self)),
    {
        match self {
            JsonValue::Bool(b) => Some(*b),
            _ => None,
        }
    }

    /// The text, when this is a string (`Value::as_str`).
    pub fn as_text(&self) -> (res: Option<String>)
        ensures
            match res {
                Some(s) => json_str(Some(*self)) == Some(s@),
                None => json_str(Some(*self)) is None,
            },
    {
        match self {
            JsonValue::Str(s) => Some(s.clone()),
            _ => None,
        }
    }

    /// The number, when this is a non-negative integer that fits `u64`
    /// (`Value::as_u64`).
    pub fn as_u64(&self) -> (res: Option<u64>)
        ensures
            res == json_u64(Some(*self)),
    {
        match self {
            JsonValue::Number { value, .. } => *value,
            _ => None,
        }
    }

    /// The texts of an array of strings (`from_value::<Vec<String>>`).
    pub fn as_strings(&self) -> (res: Option<Vec<String>>)
        ensures
            match res {
                Some(v) => json_strings(*self) == Some(views(v@)),
                None => json_strings(*self) is None,
            },
    {
        match self {
            JsonValue::Array(items) => {
                let mut out: Vec<String> = Vec::new();
                let mut i: usize = 0;
                while i < items.len()
                    invariant
                        i <= items@.len(),
                        *self == JsonValue::Array(*items),
                        out@.len() == i,
                        forall|k: int| 0 <= k < i ==> #[trigger] is_json_str(items@[k]),
                        forall|k: int| 0 <= k < i ==> #[trigger] out@[k]@ == str_text(items@[k]),
                    decreases items@.len() - i,
                {
                    match &items[i] {
                        JsonValue::Str(s) => {
                            out.push(s.clone());
                        },
                        _ => {
                            assert(!is_json_str(items@[i as int]));
                            assert(json_strings(*self) is None);
                            return None;
                        },
                    }
                    i += 1;
                }
                assert(views(out@) =~= items@.map_values(|x: JsonValue| str_text(x)));
                Some(out)
            },
            _ => None,
        }
    }
}

/// Text, or a default when there is none.
pub fn text_or(v: Option<String>, default: &str) -> (res: String)
    ensures
        res@ == match v {
            Some(s) => s@,
            None => default@,
        },
{
    match v {
        Some(s) => s,
        None => own(default),
    }
}

/// The text of `v.get(key)`, when it is a string.
pub fn get_text(v: &JsonValue, key: &str) -> (res: Option<String>)
    ensures
        match res {
            Some(s) => json_str(json_get(*v, key@)) == Some(s@),
            None => json_str(json_get(*v, key@)) is None,
        },
{
    match v.get(key) {
        Some(x) => x.as_text(),
        None => None,
    }
}

/// The flag of `v.get(key)`, when it is a boolean.
pub fn get_bool(v: &JsonValue, key: &str) -> (res: Option<bool>)
    ensures
        res == json_bool(json_get(*v, key@)),
{
    match v.get(key) {
        Some(x) => x.as_bool(),
        None => None,
    }
}


/// Moves the first entry named `key` out of an object's entries and returns
/// its value.
pub fn take_member(es: &mut Vec<(String, JsonValue)>, key: &str) -> (res: Option<JsonValue>)
    ensures
        res == entries_get(old(es)@, key@),
        res is None ==> final(es)@ == old(es)@,
        forall|other: Seq<char>|
            other != key@ ==> #[trigger] entries_get(final(es)@, other) == entries_get(old(es)@, other),
{
    let mut i: usize = 0;
    assert(es@.subrange(0, es@.len() as int) == es@);
    while i < es.len()
        invariant
            i <= es@.len(),
            es@ == old(es)@,
            entries_get(es@, key@) == entries_get(es@.subrange(i as int, es@.len() as int), key@),
        decreases es@.len() - i,
    {
        let ghost rest = es@.subrange(i as int, es@.len() as int);
        assert(rest[0] == es@[i as int]);
        if str_eq(es[i].0.as_str(), key) {
            let ghost before = es@;
            let (_, v) = es.remove(i);
            proof {
                assert forall|other: Seq<char>| other != key@ implies #[trigger] entries_get(es@, other)
                    == entries_get(before, other) by {
                    lemma_get_remove(before, i as int, other);
                }
            }
            return Some(v);
        }
        assert(rest.drop_first() == es@.subrange(i + 1, es@.len() as int));
        i += 1;
    }
    None
}


/// Removing an entry not named `other` leaves the value of `other` alone.
proof fn lemma_get_remove(es: Seq<(String, JsonValue)>, i: int, other: Seq<char>)
    requires
        0 <= i < es.len(),
        es[i].0@ != other,
    ensures
        entries_get(es.remove(i), other) == entries_get(es, other),
    decreases i,
{
    if i > 0 {
        lemma_get_remove(es.drop_first(), i - 1, other);
        assert(es.remove(i).drop_first() =~= es.drop_first().remove(i - 1));
        assert(es.remove(i)[0] == es[0]);
    } else {
        assert(es.remove(0) =~= es.drop_first());
    }
}

} // verus!
