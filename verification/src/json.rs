//! JSON documents built from and read into plain values, through `serde_json`.

use vstd::prelude::*;
use vstd::utf8::valid_utf8;
use serde_json::Value;
use crate::types::{InputValue, ProofInputs, ProofInputsView};

verus! {

/// `serde_json::Value`, carried opaquely.
#[verifier::external_type_specification]
#[verifier::external_body]
pub struct ExJsonValue(serde_json::Value);

/// A value placed under a key of a JSON object that this library writes.
#[derive(Debug)]
pub enum JsonLeaf {
    /// `null`.
    Null,
    /// A string.
    Text(String),
    /// An array of strings.
    Texts(Vec<String>),
    /// An array of arrays of strings.
    Grid(Vec<Vec<String>>),
    /// A non-negative integer.
    Unsigned(u64),
}

/// The mathematical view of a [`JsonLeaf`].
pub enum JsonLeafView {
    Null,
    Text(Seq<char>),
    Texts(Seq<Seq<char>>),
    Grid(Seq<Seq<Seq<char>>>),
    Unsigned(u64),
}

impl View for JsonLeaf {
    type V = JsonLeafView;

    open spec fn view(&self) -> JsonLeafView {
        match self {
            JsonLeaf::Null => JsonLeafView::Null,
            JsonLeaf::Text(s) => JsonLeafView::Text(s@),
            JsonLeaf::Texts(v) => JsonLeafView::Texts(crate::types::strings_view(v@)),
            JsonLeaf::Grid(g) => JsonLeafView::Grid(
                g@.map_values(|r: Vec<String>| crate::types::strings_view(r@)),
            ),
            JsonLeaf::Unsigned(n) => JsonLeafView::Unsigned(*n),
        }
    }
}

/// What this library reads under a key of a JSON document.
#[derive(Debug)]
pub enum JsonField {
    /// The document is not an object, or has no such key.
    Absent,
    /// A string.
    Text(String),
    /// An array; each element as a string, or `None` where it is not one.
    List(Vec<Option<String>>),
    /// A number that is a non-negative integer fitting in `u64`.
    Unsigned(u64),
    /// Any other value.
    Other,
}

/// The mathematical view of a [`JsonField`].
pub enum JsonFieldView {
    Absent,
    Text(Seq<char>),
    List(Seq<Option<Seq<char>>>),
    Unsigned(u64),
    Other,
}

impl View for JsonField {
    type V = JsonFieldView;

    open spec fn view(&self) -> JsonFieldView {
        match self {
            JsonField::Absent => JsonFieldView::Absent,
            JsonField::Text(s) => JsonFieldView::Text(s@),
            JsonField::List(v) => JsonFieldView::List(
                v@.map_values(|o: Option<String>| crate::types::opt_string_view(o)),
            ),
            JsonField::Unsigned(n) => JsonFieldView::Unsigned(*n),
            JsonField::Other => JsonFieldView::Other,
        }
    }
}

/// The view of an object's entries.
pub open spec fn entries_view(entries: Seq<(String, JsonLeaf)>) -> Seq<(Seq<char>, JsonLeafView)> {
    entries.map_values(|e: (String, JsonLeaf)| (e.0@, e.1@))
}

/// What reading a key gives back for a value that was written under it.
pub open spec fn leaf_field(leaf: JsonLeafView) -> JsonFieldView {
    match leaf {
        JsonLeafView::Null => JsonFieldView::Other,
        JsonLeafView::Text(s) => JsonFieldView::Text(s),
        JsonLeafView::Texts(v) => JsonFieldView::List(v.map_values(|s: Seq<char>| Some(s))),
        JsonLeafView::Grid(g) => JsonFieldView::List(
            g.map_values(|r: Seq<Seq<char>>| None::<Seq<char>>),
        ),
        JsonLeafView::Unsigned(n) => JsonFieldView::Unsigned(n),
    }
}

/// What reading `key` gives back from the object written from `entries`: the last
/// entry under that key wins, as in a map that an insert overwrites.
pub open spec fn field_of(entries: Seq<(Seq<char>, JsonLeafView)>, key: Seq<char>) -> JsonFieldView
    decreases entries.len(),
{
    if entries.len() == 0 {
        JsonFieldView::Absent
    } else if entries.last().0 == key {
        leaf_field(entries.last().1)
    } else {
        field_of(entries.drop_last(), key)
    }
}

/// The bytes that `serde_json::to_vec` writes for the object with these entries.
pub uninterp spec fn json_object_bytes(entries: Seq<(Seq<char>, JsonLeafView)>) -> Seq<u8>;

/// Whether `serde_json::from_slice::<Value>` accepts these bytes.
pub uninterp spec fn json_bytes_valid(data: Seq<u8>) -> bool;

/// What [`read_json_field`] gives back for `key` of the JSON document `data`.
pub uninterp spec fn json_field_at(data: Seq<u8>, key: Seq<char>) -> JsonFieldView;

/// Writes a JSON object with `serde_json::to_vec`, after inserting the entries in
/// order into a `serde_json::Map` (a later entry under a key replaces an earlier one).
/// The contract names the bytes and states four facts of `serde_json`'s source and
/// documentation: the call succeeds (`to_vec` fails only when a `Serialize` impl
/// fails or a map has a key that is not a string, and a `Value` object with string
/// keys and string, array, integer or `null` values written into a `Vec` does
/// neither), its output is valid UTF-8, `from_slice` accepts it, and reading a key
/// back gives the value written under it. Three facts of length follow from the
/// writer (`CompactFormatter` writes `{` and `}` around the object, and a string as
/// its characters between quotes, each character as at least one byte) and from
/// `Vec`, which never holds more than `isize::MAX` bytes: the output has at least two
/// bytes, at most `isize::MAX`, and more bytes than any string that reads back from it
/// has characters.
#[verifier::external_body]
pub fn write_json_object(entries: &Vec<(String, JsonLeaf)>) -> (res: Result<Vec<u8>, serde_json::Error>)
    ensures
        res is Ok,
        res matches Ok(b) ==> {
            &&& b@ == json_object_bytes(entries_view(entries@))
            &&& 2 <= b@.len() <= isize::MAX
            &&& forall|k: Seq<char>|
                #[trigger] field_of(entries_view(entries@), k) matches JsonFieldView::Text(t) ==> b@.len() >= t.len() + 2
            &&& valid_utf8(b@)
            &&& json_bytes_valid(b@)
            &&& forall|k: Seq<char>|
                #[trigger] json_field_at(b@, k) == field_of(entries_view(entries@), k)
        },
{
    let mut map = serde_json::Map::new();
    for (k, v) in entries.iter() {
        let value = match v {
            JsonLeaf::Null => Value::Null,
            JsonLeaf::Text(s) => Value::from(s.as_str()),
            JsonLeaf::Texts(l) => Value::from(l.clone()),
            JsonLeaf::Grid(g) => Value::from(g.clone()),
            JsonLeaf::Unsigned(n) => Value::from(*n),
        };
        map.insert(k.clone(), value);
    }
    serde_json::to_vec(&Value::Object(map))
}

/// Parses bytes as a JSON document with `serde_json::from_slice::<Value>`; whether it
/// succeeds is named, the parsed value is carried opaquely.
#[verifier::external_body]
pub fn parse_json(data: &[u8]) -> (res: Result<serde_json::Value, serde_json::Error>)
    ensures
        res is Ok <==> json_bytes_valid(data@),
{
    serde_json::from_slice::<Value>(data)
}

/// Parses `data` with `serde_json::from_slice::<Value>` and reads `key` with
/// `Value::get`, telling apart a string, an array (each element by `as_str`) and a
/// number with `as_u64`; the result is named.
#[verifier::external_body]
pub fn read_json_field(data: &[u8], key: &str) -> (res: JsonField)
    ensures
        res@ == json_field_at(data@, key@),
{
    let parsed: Option<Value> = serde_json::from_slice(data).ok();
    match parsed.as_ref().and_then(|v| v.get(key)) {
        None => JsonField::Absent,
        Some(Value::String(s)) => JsonField::Text(s.clone()),
        Some(Value::Array(a)) => JsonField::List(a.iter().map(|x| x.as_str().map(String::from)).collect()),
        Some(v) => match v.as_u64() {
            Some(n) => JsonField::Unsigned(n),
            None => JsonField::Other,
        },
    }
}

/// What [`read_proof_inputs`] gives back for the JSON document `data`.
pub uninterp spec fn json_inputs(data: Seq<u8>) -> ProofInputsView;

/// Parses `data` with `serde_json::from_slice::<Value>` and converts the value: an
/// object becomes its entries in the order its `serde_json::Map` keeps them (the order
/// of the text, under the `preserve_order` feature), a string value as its text and
/// any other value as its JSON text (`Value::to_string`); any other document becomes
/// `NotObject`. It succeeds exactly when `from_slice` accepts the bytes; the entries
/// are named, not described.
#[verifier::external_body]
pub(crate) fn read_proof_inputs(data: &[u8]) -> (res: Result<ProofInputs, serde_json::Error>)
    ensures
        res is Ok <==> json_bytes_valid(data@),
        res matches Ok(i) ==> i@ == json_inputs(data@),
{
    Ok(match serde_json::from_slice::<Value>(data)? {
        Value::Object(map) => ProofInputs::Object(map.into_iter().map(|(k, v)| match v {
            Value::String(s) => (k, InputValue::Text(s)),
            other => (k, InputValue::Json(other.to_string())),
        }).collect()),
        _ => ProofInputs::NotObject,
    })
}

} // verus!
