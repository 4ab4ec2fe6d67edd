use vstd::prelude::*;

verus! {

/// A JSON document, as the configuration logic reads it. A number keeps its
/// decimal text; an object keeps its fields in order, one per key.
#[derive(Debug)]
pub enum JsonValue {
    Null,
    Bool(bool),
    Number(String),
    Str(String),
    Array(Vec<JsonValue>),
    Object(Vec<(String, JsonValue)>),
}

/// The configuration text is not a JSON document.
#[derive(Debug, Clone, Copy, PartialEq, Eq, Structural)]
pub enum ConfError {
    InvalidJson,
}

/// serde_json's error, carried from the parser to `ConfError`.
#[verifier::external_type_specification]
#[verifier::external_body]
pub struct ExJsonError(serde_json::Error);

/// serde_json's document value, moved into a `JsonValue` as soon as it is read.
#[verifier::external_type_specification]
#[verifier::external_body]
pub struct ExJsonValue(serde_json::Value);

/// The document that a text holds when it is valid JSON.
pub uninterp spec fn json_document(s: Seq<char>) -> Option<JsonValue>;

/// Relies on serde_json::from_str into a serde_json::Value: it succeeds exactly
/// on the texts that are JSON documents, and the value depends on the text
/// alone.
#[verifier::external_body]
fn parse_json(s: &str) -> (r: Result<JsonValue, serde_json::Error>)
    ensures
        match r {
            Ok(v) => json_document(s@) == Some(v),
            Err(_) => json_document(s@) is None,
        },
{
    serde_json::from_str::<serde_json::Value>(s).map(json_from_value)
}

/// Relies on the variants of serde_json::Value, moved one for one into a
/// `JsonValue` (a number as serde_json writes it back out).
#[verifier::external_body]
fn json_from_value(v: serde_json::Value) -> JsonValue {
    match v {
        serde_json::Value::Null => JsonValue::Null,
        serde_json::Value::Bool(b) => JsonValue::Bool(b),
        serde_json::Value::Number(n) => JsonValue::Number(n.to_string()),
        serde_json::Value::String(s) => JsonValue::Str(s),
        serde_json::Value::Array(a) => JsonValue::Array(a.into_iter().map(json_from_value).collect()),
        serde_json::Value::Object(m) => JsonValue::Object(
            m.into_iter().map(|(k, x)| (k, json_from_value(x))).collect(),
        ),
    }
}

/// The value of the first field named `key`.
pub open spec fn field_of(fields: Seq<(String, JsonValue)>, key: Seq<char>) -> Option<JsonValue>
    decreases fields.len(),
{
    if fields.len() == 0 {
        None
    } else if fields[0].0@ == key {
        Some(fields[0].1)
    } else {
        field_of(fields.drop_first(), key)
    }
}

/// The field `key` of an object; `None` for any other value.
pub open spec fn get_field(v: JsonValue, key: Seq<char>) -> Option<JsonValue> {
    match v {
        JsonValue::Object(fields) => field_of(fields@, key),
        _ => None,
    }
}

/// The text of the field `key` of an object, when that field is a string.
pub open spec fn str_field(v: JsonValue, key: Seq<char>) -> Option<Seq<char>> {
    match get_field(v, key) {
        Some(JsonValue::Str(s)) => Some(s@),
        _ => None,
    }
}

/// The text of `key` in the last entry that has it as a string; empty when
/// none has.
pub open spec fn last_str_field(entries: Seq<JsonValue>, key: Seq<char>) -> Seq<char>
    decreases entries.len(),
{
    if entries.len() == 0 {
        Seq::empty()
    } else {
        match str_field(entries.last(), key) {
            Some(s) => s,
            None => last_str_field(entries.drop_last(), key),
        }
    }
}

/// A setting of the configuration: the configuration is an array of objects,
/// and a later object overrides an earlier one. Empty when the document is no
/// array or no object sets `key` to a string.
pub open spec fn conf_value(root: JsonValue, key: Seq<char>) -> Seq<char> {
    match root {
        JsonValue::Array(entries) => last_str_field(entries@, key),
        _ => Seq::empty(),
    }
}

/// The strings of an array, in order, skipping its other items.
pub open spec fn strings_in(items: Seq<JsonValue>) -> Seq<Seq<char>>
    decreases items.len(),
{
    if items.len() == 0 {
        Seq::empty()
    } else {
        let prev = strings_in(items.drop_last());
        match items.last() {
            JsonValue::Str(s) => prev.push(s@),
            _ => prev,
        }
    }
}

/// The border colours that one entry lists under "border_color".
pub open spec fn entry_colors(v: JsonValue) -> Seq<Seq<char>> {
    match get_field(v, "border_color"@) {
        Some(JsonValue::Array(items)) => strings_in(items@),
        _ => Seq::empty(),
    }
}

pub open spec fn colors_in(entries: Seq<JsonValue>) -> Seq<Seq<char>>
    decreases entries.len(),
{
    if entries.len() == 0 {
        Seq::empty()
    } else {
        colors_in(entries.drop_last()) + entry_colors(entries.last())
    }
}

/// The border colours of the configuration: those of every entry, in order.
pub open spec fn border_colors(root: JsonValue) -> Seq<Seq<char>> {
    match root {
        JsonValue::Array(entries) => colors_in(entries@),
        _ => Seq::empty(),
    }
}

pub open spec fn texts_of(v: Seq<String>) -> Seq<Seq<char>> {
    v.map_values(|s: String| s@)
}

/// The configuration file's text.
pub struct ConfFile {
    contents: String,
}

impl View for ConfFile {
    type V = Seq<char>;

    closed spec fn view(&self) -> Seq<char> {
        self.contents@
    }
}

impl ConfFile {
    /// A configuration file that holds `contents`.
    pub fn new(contents: String) -> (r: ConfFile)
        ensures
            r@ == contents@,
    {
        ConfFile { contents }
    }

    /// The file's text.
    pub fn read(&self) -> (r: String)
        ensures
            r@ == self@,
    {
        self.contents.clone()
    }
}

/// Reads the configuration text as a JSON document.
pub fn parse_conf(conf: &str) -> (r: Result<JsonValue, ConfError>)
    ensures
        match json_document(conf@) {
            Some(v) => r == Ok::<JsonValue, ConfError>(v),
            None => r == Err::<JsonValue, ConfError>(ConfError::InvalidJson),
        },
{
    match parse_json(conf) {
        Ok(v) => Ok(v),
        Err(_) => Err(ConfError::InvalidJson),
    }
}

/// The field `key` of an object, `None` for any other value.
pub fn find_field<'a>(v: &'a JsonValue, key: &str) -> (r: Option<&'a JsonValue>)
    ensures
        match r {
            Some(x) => get_field(*v, key@) == Some(*x),
            None => get_field(*v, key@) is None,
        },
{
    match v {
        JsonValue::Object(fields) => {
            let mut i: usize = 0;
            assert(fields@.skip(0) =~= fields@);
            while i < fields.len()
                invariant
                    i <= fields@.len(),
                    get_field(*v, key@) == field_of(fields@.skip(i as int), key@),
                decreases fields.len() - i,
            {
                assert(fields@.skip(i as int).drop_first() =~= fields@.skip(i + 1));
                assert(fields@.skip(i as int)[0] == fields@[i as int]);
                if crate::text::text_eq(fields[i].0.as_str(), key) {
                    assert(field_of(fields@.skip(i as int), key@) == Some(fields@[i as int].1));
                    return Some(&fields[i].1);
                }
                i = i + 1;
            }
            None
        },
        _ => None,
    }
}

/// The text of the field `key` of an object, when that field is a string.
fn find_str_field<'a>(v: &'a JsonValue, key: &str) -> (r: Option<&'a String>)
    ensures
        match r {
            Some(s) => str_field(*v, key@) == Some(s@),
            None => str_field(*v, key@) is None,
        },
{
    match find_field(v, key) {
        Some(JsonValue::Str(s)) => Some(s),
        _ => None,
    }
}

/// The setting `which` of a parsed configuration (see `conf_value`).
pub fn conf_value_of(root: &JsonValue, which: &str) -> (r: String)
    ensures
        r@ == conf_value(*root, which@),
{
    let mut out = String::new();
    match root {
        JsonValue::Array(entries) => {
            let mut i: usize = 0;
            while i < entries.len()
                invariant
                    i <= entries@.len(),
                    out@ == last_str_field(entries@.take(i as int), which@),
                decreases entries.len() - i,
            {
                assert(entries@.take(i + 1).drop_last() =~= entries@.take(i as int));
                match find_str_field(&entries[i], which) {
                    Some(s) => {
                        out = s.clone();
                    },
                    None => {},
                }
                i = i + 1;
            }
            assert(entries@.take(i as int) =~= entries@);
        },
        _ => {},
    }
    out
}

/// The border colours of a parsed configuration (see `border_colors`).
pub fn border_colors_of(root: &JsonValue) -> (r: Vec<String>)
    ensures
        texts_of(r@) == border_colors(*root),
{
    let mut color: Vec<String> = Vec::new();
    match root {
        JsonValue::Array(entries) => {
            let mut i: usize = 0;
            while i < entries.len()
                invariant
                    i <= entries@.len(),
                    texts_of(color@) == colors_in(entries@.take(i as int)),
                decreases entries.len() - i,
            {
                assert(entries@.take(i + 1).drop_last() =~= entries@.take(i as int));
                let ghost before = texts_of(color@);
                match find_field(&entries[i], "border_color") {
                    Some(JsonValue::Array(items)) => {
                        let mut j: usize = 0;
                        while j < items.len()
                            invariant
                                j <= items@.len(),
                                texts_of(color@) == before + strings_in(items@.take(j as int)),
                            decreases items.len() - j,
                        {
                            assert(items@.take(j + 1).drop_last() =~= items@.take(j as int));
                            match &items[j] {
                                JsonValue::Str(s) => {
                                    let ghost prev = texts_of(color@);
                                    color.push(s.clone());
                                    assert(texts_of(color@) =~= prev.push(s@));
                                    assert(before + strings_in(items@.take(j as int)).push(s@)
                                        =~= (before + strings_in(items@.take(j as int))).push(s@));
                                },
                                _ => {},
                            }
                            j = j + 1;
                        }
                        assert(items@.take(j as int) =~= items@);
                    },
                    _ => {},
                }
                assert(texts_of(color@) =~= before + entry_colors(entries@[i as int]));
                i = i + 1;
            }
            assert(entries@.take(i as int) =~= entries@);
        },
        _ => {},
    }
    color
}

/// The setting `which` of the configuration text (see `conf_value`), or
/// `InvalidJson` when the text is no JSON document.
pub fn get_conf_data(conf: String, which: &str) -> (r: Result<String, ConfError>)
    ensures
        match json_document(conf@) {
            Some(v) => r is Ok && r->Ok_0@ == conf_value(v, which@),
            None => r == Err::<String, ConfError>(ConfError::InvalidJson),
        },
{
    match parse_conf(conf.as_str()) {
        Ok(root) => Ok(conf_value_of(&root, which)),
        Err(e) => Err(e),
    }
}

/// The border colours of the configuration text (see `border_colors`), or
/// `InvalidJson` when the text is no JSON document.
pub fn get_border_color(conf: String) -> (r: Result<Vec<String>, ConfError>)
    ensures
        match json_document(conf@) {
            Some(v) => r is Ok && texts_of(r->Ok_0@) == border_colors(v),
            None => r is Err && r->Err_0 == ConfError::InvalidJson,
        },
{
    match parse_conf(conf.as_str()) {
        Ok(root) => Ok(border_colors_of(&root)),
        Err(e) => Err(e),
    }
}

} // verus!
