//! Reading JSON documents: the document is parsed by `serde_json`, and a
//! value in it is found by its JSON pointer.

use vstd::prelude::*;
use serde_json::Value;
use crate::text::decimal;
use crate::text::join;
use crate::text::joined;
use crate::text::push_decimal_usize;
use crate::text::texts_of;

verus! {

#[verifier::external_type_specification]
#[verifier::external_body]
pub struct ExValue(serde_json::Value);

/// What stands at one place of a document, without what lies below it.
#[derive(Debug)]
pub enum JsonLeaf {
    Null,
    Bool(bool),
    /// A number, as far as it is a whole number: as an unsigned one where
    /// it is not negative, and as a signed one where it fits.
    Number { unsigned: Option<u64>, signed: Option<i64> },
    Str(String),
    /// An array, with the number of its elements.
    Array(usize),
    Object,
}

/// A leaf as contracts speak of it.
pub enum LeafModel {
    Null,
    Bool(bool),
    Number { unsigned: Option<u64>, signed: Option<i64> },
    Str(Seq<char>),
    Array(nat),
    Object,
}

impl View for JsonLeaf {
    type V = LeafModel;

    open spec fn view(&self) -> LeafModel {
        match self {
            JsonLeaf::Null => LeafModel::Null,
            JsonLeaf::Bool(b) => LeafModel::Bool(*b),
            JsonLeaf::Number { unsigned, signed } => LeafModel::Number {
                unsigned: *unsigned,
                signed: *signed,
            },
            JsonLeaf::Str(s) => LeafModel::Str(s@),
            JsonLeaf::Array(len) => LeafModel::Array(*len as nat),
            JsonLeaf::Object => LeafModel::Object,
        }
    }
}

/// What a document holds: the leaf at each JSON pointer that leads
/// somewhere in it.
pub type JsonContents = Map<Seq<char>, LeafModel>;

/// What a document holds.
pub uninterp spec fn json_contents(value: serde_json::Value) -> Map<Seq<char>, LeafModel>;

/// What the document that a text is holds, or `None` for a text that is no
/// JSON document.
pub uninterp spec fn json_document(text: Seq<char>) -> Option<Map<Seq<char>, LeafModel>>;

/// Calls `serde_json::from_str` for a `Value`. The result is `None` for a
/// text that the crate does not take, and else the document whose contents
/// `json_document` names.
#[verifier::external_body]
pub(crate) fn parse_json(text: &str) -> (res: Option<serde_json::Value>)
    ensures
        match res {
            Some(value) => json_document(text@) == Some(json_contents(value)),
            None => json_document(text@) is None,
        },
{
    serde_json::from_str::<Value>(text).ok()
}

/// Calls `Value::pointer` and hands back what stands at the place that the
/// pointer leads to, or `None` where it leads nowhere. A number is read
/// with `Number::as_u64` and `Number::as_i64`.
#[verifier::external_body]
pub(crate) fn json_lookup(value: &serde_json::Value, pointer: &str) -> (res: Option<JsonLeaf>)
    ensures
        match res {
            Some(leaf) => json_contents(*value).contains_key(pointer@) && json_contents(
                *value,
            )[pointer@] == leaf@,
            None => !json_contents(*value).contains_key(pointer@),
        },
{
    match value.pointer(pointer) {
        None => None,
        Some(Value::Null) => Some(JsonLeaf::Null),
        Some(Value::Bool(b)) => Some(JsonLeaf::Bool(*b)),
        Some(Value::Number(n)) => Some(JsonLeaf::Number { unsigned: n.as_u64(), signed: n.as_i64() }),
        Some(Value::String(s)) => Some(JsonLeaf::Str(s.clone())),
        Some(Value::Array(a)) => Some(JsonLeaf::Array(a.len())),
        Some(Value::Object(_)) => Some(JsonLeaf::Object),
    }
}

/// What `serde_json` makes of a text that it is asked to write as a JSON
/// string: the literal, quotes included.
pub uninterp spec fn json_literal(text: Seq<char>) -> Option<Seq<char>>;

/// The JSON string literal for a text, quotes included, as `serde_json`
/// writes it.
pub open spec fn json_string(text: Seq<char>) -> Seq<char> {
    json_literal(text)->Some_0
}

/// Calls `serde_json::to_string` on a string slice. The call succeeds:
/// the crate fails only where a value refuses to be written or a map has
/// keys that are no strings, and a string slice is written into a vector
/// of bytes, which takes every write. The result is the literal that
/// `json_literal` names.
#[verifier::external_body]
pub(crate) fn json_quote(text: &str) -> (res: Option<String>)
    ensures
        res is Some,
        chars_of(res) == json_literal(text@),
{
    serde_json::to_string(text).ok()
}

/// The JSON string literal for a text.
pub fn quote(text: &str) -> (res: String)
    ensures
        res@ == json_string(text@),
{
    json_quote(text).unwrap()
}

/// The JSON value for a text that may be absent: `null`, or the string
/// literal.
pub open spec fn optional_json(value: Option<Seq<char>>) -> Seq<char> {
    match value {
        Some(text) => json_string(text),
        None => "null"@,
    }
}

/// Writes a text that may be absent as a JSON value.
pub fn quote_optional(value: &Option<String>) -> (res: String)
    ensures
        res@ == optional_json(chars_of(*value)),
{
    match value {
        Some(text) => quote(text.as_str()),
        None => String::from_str("null"),
    }
}

/// Appends the JSON string literal for `text` to `out`.
pub fn push_quoted(out: &mut String, text: &str)
    ensures
        final(out)@ == old(out)@ + json_string(text@),
{
    out.append(quote(text).as_str());
}

/// Appends the JSON value for a text that may be absent to `out`.
pub fn push_optional(out: &mut String, value: &Option<String>)
    ensures
        final(out)@ == old(out)@ + optional_json(chars_of(*value)),
{
    out.append(quote_optional(value).as_str());
}

/// A name between quotes. This is the JSON string literal of a name that
/// holds nothing to escape.
pub open spec fn quoted_name(name: Seq<char>) -> Seq<char> {
    "\""@ + name + "\""@
}

/// Appends a name between quotes to `out`.
pub fn push_name(out: &mut String, name: &str)
    ensures
        final(out)@ == old(out)@ + quoted_name(name@),
{
    out.append("\"");
    out.append(name);
    out.append("\"");
    assert(out@ =~= old(out)@ + quoted_name(name@));
}

/// The JSON array of the given values.
pub open spec fn json_array(items: Seq<Seq<char>>) -> Seq<char> {
    "["@ + joined(items, ","@) + "]"@
}

/// Writes the JSON array of the given values.
pub fn array_of(items: &Vec<String>) -> (res: String)
    ensures
        res@ == json_array(texts_of(items@)),
{
    let mut out = String::from_str("[");
    out.append(join(items, ",").as_str());
    out.append("]");
    out
}

/// What a document holds, behind a reference.
pub open spec fn contents(doc: &serde_json::Value) -> Map<Seq<char>, LeafModel> {
    json_contents(*doc)
}

/// The text at `path`, where a text stands there.
pub open spec fn text_at(c: Map<Seq<char>, LeafModel>, path: Seq<char>) -> Option<Seq<char>> {
    if c.contains_key(path) && c[path] is Str {
        Some(c[path]->Str_0)
    } else {
        None
    }
}

/// Whether nothing stands at `path`: the place is missing or holds `null`.
pub open spec fn absent_at(c: Map<Seq<char>, LeafModel>, path: Seq<char>) -> bool {
    !c.contains_key(path) || c[path] is Null
}

/// The text at `path` that may be absent: `Some(None)` where nothing
/// stands there, `Some(Some(..))` where a text does, and `None` where
/// something else does.
pub open spec fn optional_text_at(c: Map<Seq<char>, LeafModel>, path: Seq<char>) -> Option<
    Option<Seq<char>>,
> {
    if absent_at(c, path) {
        Some(None)
    } else if c[path] is Str {
        Some(Some(c[path]->Str_0))
    } else {
        None
    }
}

/// The number at `path` that may be absent, where it is a whole number
/// from 0 to 4294967295.
pub open spec fn optional_u32_at(c: Map<Seq<char>, LeafModel>, path: Seq<char>) -> Option<
    Option<u32>,
> {
    if absent_at(c, path) {
        Some(None)
    } else {
        match c[path] {
            LeafModel::Number { unsigned: Some(n), .. } if n <= u32::MAX => Some(Some(n as u32)),
            _ => None,
        }
    }
}

/// The number at `path` that may be absent, where it is a whole number
/// from -2147483648 to 2147483647.
pub open spec fn optional_i32_at(c: Map<Seq<char>, LeafModel>, path: Seq<char>) -> Option<
    Option<i32>,
> {
    if absent_at(c, path) {
        Some(None)
    } else {
        match c[path] {
            LeafModel::Number { signed: Some(n), .. } if i32::MIN <= n <= i32::MAX => Some(
                Some(n as i32),
            ),
            _ => None,
        }
    }
}

/// The number of elements of the array at `path`, where an array stands
/// there.
pub open spec fn array_len_at(c: Map<Seq<char>, LeafModel>, path: Seq<char>) -> Option<nat> {
    if c.contains_key(path) && c[path] is Array {
        Some(c[path]->Array_0)
    } else {
        None
    }
}

/// The characters of a text that may be absent.
pub open spec fn chars_of(value: Option<String>) -> Option<Seq<char>> {
    match value {
        Some(s) => Some(s@),
        None => None,
    }
}

/// Reads the text at `path`.
pub fn required_text(doc: &serde_json::Value, path: &str) -> (res: Option<String>)
    ensures
        chars_of(res) == text_at(contents(doc), path@),
{
    match json_lookup(doc, path) {
        Some(JsonLeaf::Str(s)) => Some(s),
        _ => None,
    }
}

/// Whether nothing stands at `path`.
pub fn is_absent(doc: &serde_json::Value, path: &str) -> (res: bool)
    ensures
        res == absent_at(contents(doc), path@),
{
    match json_lookup(doc, path) {
        None => true,
        Some(JsonLeaf::Null) => true,
        Some(_) => false,
    }
}

/// Reads the text at `path` that may be absent. The outer `None` says that
/// something else than a text stands there.
pub fn optional_text(doc: &serde_json::Value, path: &str) -> (res: Option<Option<String>>)
    ensures
        match optional_text_at(contents(doc), path@) {
            Some(value) => res matches Some(found) && chars_of(found) == value,
            None => res is None,
        },
{
    match json_lookup(doc, path) {
        None => Some(None),
        Some(JsonLeaf::Null) => Some(None),
        Some(JsonLeaf::Str(s)) => Some(Some(s)),
        Some(_) => None,
    }
}

/// Reads the number at `path` that may be absent. The outer `None` says
/// that something else than such a number stands there.
pub fn optional_u32(doc: &serde_json::Value, path: &str) -> (res: Option<Option<u32>>)
    ensures
        res == optional_u32_at(contents(doc), path@),
{
    match json_lookup(doc, path) {
        None => Some(None),
        Some(JsonLeaf::Null) => Some(None),
        Some(JsonLeaf::Number { unsigned: Some(n), .. }) => {
            if n <= 0xffff_ffff {
                Some(Some(n as u32))
            } else {
                None
            }
        },
        Some(_) => None,
    }
}

/// Reads the number at `path` that may be absent. The outer `None` says
/// that something else than such a number stands there.
pub fn optional_i32(doc: &serde_json::Value, path: &str) -> (res: Option<Option<i32>>)
    ensures
        res == optional_i32_at(contents(doc), path@),
{
    match json_lookup(doc, path) {
        None => Some(None),
        Some(JsonLeaf::Null) => Some(None),
        Some(JsonLeaf::Number { signed: Some(n), .. }) => {
            if -0x8000_0000 <= n && n <= 0x7fff_ffff {
                Some(Some(n as i32))
            } else {
                None
            }
        },
        Some(_) => None,
    }
}

/// Reads the number of elements of the array at `path`.
pub fn array_len(doc: &serde_json::Value, path: &str) -> (res: Option<usize>)
    ensures
        match array_len_at(contents(doc), path@) {
            Some(len) => res matches Some(n) && n == len,
            None => res is None,
        },
{
    match json_lookup(doc, path) {
        Some(JsonLeaf::Array(len)) => Some(len),
        _ => None,
    }
}

/// The whole number at `path`, where one from -2147483648 to 2147483647
/// stands there.
pub open spec fn i32_at(c: Map<Seq<char>, LeafModel>, path: Seq<char>) -> Option<i32> {
    if c.contains_key(path) {
        match c[path] {
            LeafModel::Number { signed: Some(n), .. } if i32::MIN <= n <= i32::MAX => Some(
                n as i32,
            ),
            _ => None,
        }
    } else {
        None
    }
}

/// Reads the whole number at `path`.
pub fn required_i32(doc: &serde_json::Value, path: &str) -> (res: Option<i32>)
    ensures
        res == i32_at(contents(doc), path@),
{
    match json_lookup(doc, path) {
        Some(JsonLeaf::Number { signed: Some(n), .. }) => {
            if -0x8000_0000 <= n && n <= 0x7fff_ffff {
                Some(n as i32)
            } else {
                None
            }
        },
        _ => None,
    }
}

/// The pointer to the element `i` of the array at `path`.
pub open spec fn element_path(path: Seq<char>, i: int) -> Seq<char> {
    path + "/"@ + decimal(i as nat)
}

/// The pointer to the element `i` of the array at `path`.
pub fn element(path: &str, i: usize) -> (res: String)
    ensures
        res@ == element_path(path@, i as int),
{
    let mut out = String::from_str(path);
    out.append("/");
    push_decimal_usize(&mut out, i);
    out
}

/// The pointer to what lies below `path` under `key`, which begins with
/// its slash.
pub fn below(path: &str, key: &str) -> (res: String)
    ensures
        res@ == path@ + key@,
{
    let mut out = String::from_str(path);
    out.append(key);
    out
}

} // verus!
