//! JSON values as the decoder reads them, and the parser that makes them.
use vstd::prelude::*;
use vstd::string::StringExecFns;

verus! {

/// A JSON value. A number is held as the unsigned integer that it is, and as
/// `None` where it is negative, fractional or too large for one. The members
/// of an object stand in the order in which the parser hands them out.
#[derive(Debug, PartialEq, Eq)]
pub enum Json {
    Null,
    Bool(bool),
    Number(Option<u64>),
    Text(String),
    Array(Vec<Json>),
    Object(Vec<(String, Json)>),
}

#[verifier::external_type_specification]
#[verifier::external_body]
pub struct ExValue(serde_json::Value);

/// The value that `serde_json` reads out of a text: `None` where the text is
/// no JSON document.
pub uninterp spec fn parsed(text: Seq<u8>) -> Option<Json>;

/// Rewrites a `serde_json::Value` as a [`Json`], variant by variant; a number
/// becomes what `serde_json::Number::as_u64` gives for it. Nothing is claimed
/// of the result.
#[verifier::external_body]
fn from_value(value: serde_json::Value) -> Json {
    match value {
        serde_json::Value::Null => Json::Null,
        serde_json::Value::Bool(b) => Json::Bool(b),
        serde_json::Value::Number(n) => Json::Number(n.as_u64()),
        serde_json::Value::String(s) => Json::Text(s),
        serde_json::Value::Array(items) => Json::Array(items.into_iter().map(from_value).collect()),
        serde_json::Value::Object(members) => Json::Object(
            members.into_iter().map(|(k, v)| (k, from_value(v))).collect(),
        ),
    }
}

/// Calls `serde_json::from_slice` for a `serde_json::Value`. The contract
/// claims only that the outcome is a function of the text: the same bytes
/// always give the same value, or always none.
#[verifier::external_body]
fn parse_value(text: &[u8]) -> (r: Option<Json>)
    ensures
        r == parsed(text@),
{
    match serde_json::from_slice::<serde_json::Value>(text) {
        Ok(value) => Some(from_value(value)),
        Err(_) => None,
    }
}

/// The text that `serde_json` writes for a value: `None` where it reports an
/// error.
pub uninterp spec fn rendered(j: Json) -> Option<Seq<u8>>;

/// Rewrites a [`Json`] as a `serde_json::Value`, variant by variant; a number
/// becomes what `serde_json::Value::from` gives for the optional integer.
/// Nothing is claimed of the result.
#[verifier::external_body]
fn to_value(j: &Json) -> serde_json::Value {
    match j {
        Json::Null => serde_json::Value::Null,
        Json::Bool(b) => serde_json::Value::Bool(*b),
        Json::Number(n) => serde_json::Value::from(*n),
        Json::Text(s) => serde_json::Value::String(s.clone()),
        Json::Array(items) => serde_json::Value::Array(items.iter().map(to_value).collect()),
        Json::Object(members) => serde_json::Value::Object(
            members.iter().map(|(k, v)| (k.clone(), to_value(v))).collect(),
        ),
    }
}

/// Calls `serde_json::to_vec` on the value. The contract claims only that
/// the outcome is a function of the value: the same value always gives the
/// same text, or always none.
#[verifier::external_body]
fn render_value(j: &Json) -> (r: Option<Vec<u8>>)
    ensures
        crate::types::opt_view(r) == rendered(*j),
{
    serde_json::to_vec(&to_value(j)).ok()
}

/// The value of the first member named `key` among `entries[from..]`.
pub open spec fn lookup_from(entries: Seq<(String, Json)>, key: Seq<char>, from: int) -> Option<
    Json,
>
    decreases entries.len() - from,
{
    if from < 0 || from >= entries.len() {
        None
    } else if entries[from].0@ == key {
        Some(entries[from].1)
    } else {
        lookup_from(entries, key, from + 1)
    }
}

/// The member at `at` is the one that a lookup of its name finds, where no
/// member before it has that name.
pub proof fn lemma_lookup_finds(entries: Seq<(String, Json)>, key: Seq<char>, at: int, from: int)
    requires
        0 <= from <= at < entries.len(),
        entries[at].0@ == key,
        forall|i: int| from <= i < at ==> entries[i].0@ != key,
    ensures
        lookup_from(entries, key, from) == Some(entries[at].1),
    decreases at - from,
{
    if from < at {
        lemma_lookup_finds(entries, key, at, from + 1);
    }
}

/// Appends the member `key: value` to the members of an object.
pub fn put(entries: &mut Vec<(String, Json)>, key: &str, value: Json)
    ensures
        final(entries)@.len() == old(entries)@.len() + 1,
        final(entries)@[old(entries)@.len() as int].0@ == key@,
        final(entries)@[old(entries)@.len() as int].1 == value,
        forall|i: int| 0 <= i < old(entries)@.len() ==> final(entries)@[i] == old(entries)@[i],
{
    entries.push((String::from_str(key), value));
}

/// A lookup of a name that no member has finds nothing.
pub proof fn lemma_lookup_misses(entries: Seq<(String, Json)>, key: Seq<char>, from: int)
    requires
        0 <= from,
        forall|i: int| from <= i < entries.len() ==> entries[i].0@ != key,
    ensures
        lookup_from(entries, key, from) is None,
    decreases entries.len() - from,
{
    if from < entries.len() {
        lemma_lookup_misses(entries, key, from + 1);
    }
}

/// The member `key` of an object; `None` for a value that is no object or
/// has no such member.
pub open spec fn field(j: Json, key: Seq<char>) -> Option<Json> {
    match j {
        Json::Object(entries) => lookup_from(entries@, key, 0),
        _ => None,
    }
}

/// The names of the members of an object, in their order; none for a value
/// that is no object.
pub open spec fn member_names(j: Json) -> Seq<Seq<char>> {
    match j {
        Json::Object(entries) => Seq::new(entries@.len(), |i: int| entries@[i].0@),
        _ => Seq::empty(),
    }
}

/// The text of a string value.
pub open spec fn text_of(j: Json) -> Option<Seq<char>> {
    match j {
        Json::Text(s) => Some(s@),
        _ => None,
    }
}

/// The string member `key` of an object.
pub open spec fn text_field(j: Json, key: Seq<char>) -> Option<Seq<char>> {
    match field(j, key) {
        Some(v) => text_of(v),
        None => None,
    }
}

/// The member `key` of an object as a count: an unsigned integer that fits
/// the machine's word.
pub open spec fn count_field(j: Json, key: Seq<char>) -> Option<usize> {
    match field(j, key) {
        Some(Json::Number(Some(n))) => if n <= usize::MAX {
            Some(n as usize)
        } else {
            None
        },
        _ => None,
    }
}

/// An optional string member: absent or `null` is `Some(None)`, a string is
/// `Some(Some(..))`, anything else is malformed, `None`.
pub open spec fn optional_text_field(j: Json, key: Seq<char>) -> Option<Option<Seq<char>>> {
    match field(j, key) {
        None => Some(None),
        Some(Json::Null) => Some(None),
        Some(Json::Text(s)) => Some(Some(s@)),
        _ => None,
    }
}

/// The value behind an optional reference.
pub open spec fn opt_ref(r: Option<&Json>) -> Option<Json> {
    match r {
        Some(j) => Some(*j),
        None => None,
    }
}

/// The views of an optional optional string.
pub open spec fn opt_opt_text(r: Option<Option<String>>) -> Option<Option<Seq<char>>> {
    match r {
        Some(Some(s)) => Some(Some(s@)),
        Some(None) => Some(None),
        None => None,
    }
}

/// Whether a string is the given literal.
pub fn is_text(s: &String, literal: &str) -> (b: bool)
    ensures
        b == (s@ == literal@),
{
    let wanted = String::from_str(literal);
    *s == wanted
}

impl Json {
    /// Parses a text into a value; `None` where the text is no JSON document.
    pub fn parse(text: &[u8]) -> (r: Option<Json>)
        ensures
            r == parsed(text@),
    {
        parse_value(text)
    }

    /// Writes the value as text; `None` where the writer reports an error.
    pub fn render(&self) -> (r: Option<Vec<u8>>)
        ensures
            crate::types::opt_view(r) == rendered(*self),
    {
        render_value(self)
    }

    /// The member `key` of an object.
    pub fn get<'a>(&'a self, key: &str) -> (r: Option<&'a Json>)
        ensures
            opt_ref(r) == field(*self, key@),
    {
        match self {
            Json::Object(entries) => {
                let wanted = String::from_str(key);
                let mut i: usize = 0;
                while i < entries.len()
                    invariant
                        i <= entries@.len(),
                        wanted@ == key@,
                        field(*self, key@) == lookup_from(entries@, key@, i as int),
                    decreases entries@.len() - i,
                {
                    let entry = &entries[i];
                    if entry.0 == wanted {
                        return Some(&entry.1);
                    }
                    i += 1;
                }
                None
            },
            _ => None,
        }
    }

    /// The string member `key` of an object, copied.
    pub fn text_at(&self, key: &str) -> (r: Option<String>)
        ensures
            crate::types::opt_text(r) == text_field(*self, key@),
    {
        match self.get(key) {
            Some(Json::Text(s)) => Some(s.clone()),
            _ => None,
        }
    }

    /// The member `key` of an object as a count.
    pub fn count_at(&self, key: &str) -> (r: Option<usize>)
        ensures
            r == count_field(*self, key@),
    {
        match self.get(key) {
            Some(Json::Number(Some(n))) => {
                if *n <= usize::MAX as u64 {
                    Some(*n as usize)
                } else {
                    None
                }
            },
            _ => None,
        }
    }

    /// An optional string member of an object, copied.
    pub fn optional_text_at(&self, key: &str) -> (r: Option<Option<String>>)
        ensures
            opt_opt_text(r) == optional_text_field(*self, key@),
    {
        match self.get(key) {
            None => Some(None),
            Some(Json::Null) => Some(None),
            Some(Json::Text(s)) => Some(Some(s.clone())),
            _ => None,
        }
    }
}

} // verus!
