use vstd::prelude::*;

verus! {

#[verifier::external_type_specification]
#[verifier::external_body]
pub struct ExJsonDocument(serde_json::Value);

#[verifier::external_type_specification]
#[verifier::external_body]
pub struct ExJsonNumber(serde_json::Number);

/// A JSON document held as plain values.
///
/// Numbers are carried as serde_json's own `Number`, which nothing here reads,
/// so a document is written back exactly as serde_json read it; object
/// members keep the order in which serde_json hands them out.
pub enum JsonValue {
    Null,
    Bool(bool),
    Number(serde_json::Number),
    Str(String),
    Array(Vec<JsonValue>),
    Object(Vec<(String, JsonValue)>),
}

/// What `serde_json::from_str::<serde_json::Value>` makes of a text, converted
/// to plain values; `None` where serde_json reports an error.
pub uninterp spec fn json_parse(text: Seq<char>) -> Option<JsonValue>;

/// The compact text that `serde_json::to_string` writes for a document.
pub uninterp spec fn json_render(doc: JsonValue) -> Seq<char>;

/// Parses `text` with `serde_json::from_str` into a `serde_json::Value` and
/// converts it to a `JsonValue`. Claimed: the result is `json_parse(text)`,
/// which holds because serde_json's parser depends on its input alone.
#[verifier::external_body]
pub(crate) fn parse_json(text: &str) -> (r: Option<JsonValue>)
    ensures
        r == json_parse(text@),
{
    match serde_json::from_str::<serde_json::Value>(text) {
        Ok(v) => Some(JsonValue::from_document(&v)),
        Err(_) => None,
    }
}

/// Converts the document back to a `serde_json::Value` and writes it with
/// `serde_json::to_string`, an empty text where that reports an error.
/// Claimed: the result is `json_render(doc)`, a function of the document alone.
#[verifier::external_body]
pub(crate) fn render_json(doc: &JsonValue) -> (r: String)
    ensures
        r@ == json_render(*doc),
{
    serde_json::to_string(&doc.to_document()).unwrap_or_default()
}

/// The value of the first member of `entries` whose key is `key`.
pub open spec fn member_in(entries: Seq<(String, JsonValue)>, key: Seq<char>) -> Option<JsonValue>
    decreases entries.len(),
{
    if entries.len() == 0 {
        None
    } else if entries[0].0@ == key {
        Some(entries[0].1)
    } else {
        member_in(entries.drop_first(), key)
    }
}

/// The member `key` of a document that is an object.
pub open spec fn member_of(doc: JsonValue, key: Seq<char>) -> Option<JsonValue> {
    match doc {
        JsonValue::Object(entries) => member_in(entries@, key),
        _ => None,
    }
}

/// The text of a value that is a JSON string.
pub open spec fn text_of(v: Option<JsonValue>) -> Option<Seq<char>> {
    match v {
        Some(JsonValue::Str(s)) => Some(s@),
        _ => None,
    }
}

/// The truth value of a value that is a JSON boolean.
pub open spec fn flag_of(v: Option<JsonValue>) -> Option<bool> {
    match v {
        Some(JsonValue::Bool(b)) => Some(b),
        _ => None,
    }
}

impl JsonValue {
    /// Converts a serde_json document into plain values, member by member.
    #[verifier::external_body]
    fn from_document(v: &serde_json::Value) -> JsonValue {
        match v {
            serde_json::Value::Null => JsonValue::Null,
            serde_json::Value::Bool(b) => JsonValue::Bool(*b),
            serde_json::Value::Number(n) => JsonValue::Number(n.clone()),
            serde_json::Value::String(s) => JsonValue::Str(s.clone()),
            serde_json::Value::Array(a) => JsonValue::Array(a.iter().map(JsonValue::from_document).collect()),
            serde_json::Value::Object(m) => JsonValue::Object(
                m.iter().map(|(k, x)| (k.clone(), JsonValue::from_document(x))).collect(),
            ),
        }
    }

    /// Converts plain values back into a serde_json document, member by member.
    #[verifier::external_body]
    fn to_document(&self) -> serde_json::Value {
        match self {
            JsonValue::Null => serde_json::Value::Null,
            JsonValue::Bool(b) => serde_json::Value::Bool(*b),
            JsonValue::Number(n) => serde_json::Value::Number(n.clone()),
            JsonValue::Str(s) => serde_json::Value::String(s.clone()),
            JsonValue::Array(a) => serde_json::Value::Array(a.iter().map(JsonValue::to_document).collect()),
            JsonValue::Object(m) => serde_json::Value::Object(
                m.iter().map(|(k, x)| (k.clone(), x.to_document())).collect(),
            ),
        }
    }

    /// The member `key` of this document, where it is an object holding one.
    pub fn member(&self, key: &str) -> (r: Option<&JsonValue>)
        ensures
            match r {
                Some(x) => member_of(*self, key@) == Some(*x),
                None => member_of(*self, key@) is None,
            },
    {
        match self {
            JsonValue::Object(entries) => {
                let wanted = key.to_owned();
                let n = entries.len();
                let mut i: usize = 0;
                assert(entries@.skip(0) =~= entries@);
                while i < n
                    invariant
                        n == entries@.len(),
                        i <= n,
                        wanted@ == key@,
                        member_of(*self, key@) == member_in(entries@, key@),
                        member_in(entries@, key@) == member_in(entries@.skip(i as int), key@),
                    decreases n - i,
                {
                    assert(entries@.skip(i as int).drop_first() =~= entries@.skip(i + 1));
                    if entries[i].0 == wanted {
                        assert(entries@.skip(i as int)[0] == entries@[i as int]);
                        return Some(&entries[i].1);
                    }
                    i = i + 1;
                }
                None
            },
            _ => None,
        }
    }

    /// The text of this value, where it is a JSON string.
    pub fn as_text(&self) -> (r: Option<&String>)
        ensures
            match r {
                Some(s) => text_of(Some(*self)) == Some(s@),
                None => text_of(Some(*self)) is None,
            },
    {
        match self {
            JsonValue::Str(s) => Some(s),
            _ => None,
        }
    }

    /// The truth value of this value, where it is a JSON boolean.
    pub fn as_flag(&self) -> (r: Option<bool>)
        ensures
            r == flag_of(Some(*self)),
    {
        match self {
            JsonValue::Bool(b) => Some(*b),
            _ => None,
        }
    }
}

} // verus!
