//! JSON values: what a `serde_json::Value` holds, and the calls of `serde_json` that make, read,
//! parse and print one.

use vstd::prelude::*;

use crate::text::{decimal, opt_view};

verus! {

/// What a JSON value is: a tree of the six JSON kinds.
///
/// A number is the text that JSON writes for it. An object is a finite map from its keys, so it
/// has no order and no key twice.
pub enum JsonView {
    Null,
    Bool(bool),
    Number(Seq<char>),
    Str(Seq<char>),
    Array(Seq<JsonView>),
    Object(Map<Seq<char>, JsonView>),
}

/// `serde_json::Value`, carried as an opaque value whose contents `json_view` names.
#[verifier::external_type_specification]
#[verifier::external_body]
pub struct ExValue(serde_json::Value);

/// `serde_json::Map`, carried as an opaque value whose contents `map_view` names.
#[verifier::external_type_specification]
#[verifier::external_body]
#[verifier::reject_recursive_types(K)]
#[verifier::reject_recursive_types(V)]
pub struct ExMap<K, V>(serde_json::Map<K, V>);

/// The JSON tree that a `serde_json::Value` holds.
pub uninterp spec fn json_view(value: serde_json::Value) -> JsonView;

/// The entries that a `serde_json::Map` holds.
pub uninterp spec fn map_view(map: serde_json::Map<String, serde_json::Value>) -> Map<Seq<char>, JsonView>;

/// What `serde_json::from_str` makes of a text: the tree it denotes, or the message of the error
/// that refuses it.
pub uninterp spec fn json_parsed(text: Seq<char>) -> Result<JsonView, Seq<char>>;

/// The compact text that `serde_json` prints for a tree.
pub uninterp spec fn json_text(tree: JsonView) -> Seq<char>;

/// The view of what became of a text that was read as JSON.
pub open spec fn parsed_view(parsed: Result<serde_json::Value, String>) -> Result<
    JsonView,
    Seq<char>,
> {
    match parsed {
        Ok(value) => Ok(json_view(value)),
        Err(message) => Err(message@),
    }
}

/// The entries of the empty object.
pub open spec fn no_entries() -> Map<Seq<char>, JsonView> {
    Map::empty()
}

/// The trees that a sequence of values holds.
pub open spec fn json_views(values: Seq<serde_json::Value>) -> Seq<JsonView> {
    values.map_values(|value: serde_json::Value| json_view(value))
}

/// The tree that an optional value holds.
pub open spec fn opt_json(value: Option<serde_json::Value>) -> Option<JsonView> {
    match value {
        Some(value) => Some(json_view(value)),
        None => None,
    }
}

/// The trees that an optional sequence of values holds.
pub open spec fn opt_jsons(values: Option<Vec<serde_json::Value>>) -> Option<Seq<JsonView>> {
    match values {
        Some(values) => Some(json_views(values@)),
        None => None,
    }
}

/// The entries of an object, extended by a key only where there is a value for it.
pub open spec fn with_entry(
    entries: Map<Seq<char>, JsonView>,
    key: Seq<char>,
    value: Option<JsonView>,
) -> Map<Seq<char>, JsonView> {
    match value {
        Some(value) => entries.insert(key, value),
        None => entries,
    }
}

/// An optional text as an optional tree.
pub open spec fn opt_str(text: Option<Seq<char>>) -> Option<JsonView> {
    match text {
        Some(text) => Some(JsonView::Str(text)),
        None => None,
    }
}

/// The object with one entry.
pub open spec fn single(key: Seq<char>, value: JsonView) -> JsonView {
    JsonView::Object(map![key => value])
}

/// The object that holds a kind under `type` and one more entry.
pub open spec fn tagged(kind: Seq<char>, key: Seq<char>, value: JsonView) -> JsonView {
    JsonView::Object(map!["type"@ => JsonView::Str(kind), key => value])
}

/// The value under a key, if the tree is an object that holds the key.
pub open spec fn json_field(tree: JsonView, key: Seq<char>) -> Option<JsonView> {
    match tree {
        JsonView::Object(entries) => if entries.contains_key(key) {
            Some(entries[key])
        } else {
            None
        },
        _ => None,
    }
}

/// The text of a tree that is a string.
pub open spec fn json_str(tree: JsonView) -> Option<Seq<char>> {
    match tree {
        JsonView::Str(text) => Some(text),
        _ => None,
    }
}

/// The text under a key, if the tree is an object that holds a string there.
pub open spec fn json_text_field(tree: JsonView, key: Seq<char>) -> Option<Seq<char>> {
    match json_field(tree, key) {
        Some(value) => json_str(value),
        None => None,
    }
}

/// Whether a text is the decimal numeral of an integer that 64 bits hold, with a sign where it is
/// negative.
pub open spec fn is_integer(text: Seq<char>) -> bool {
    exists|n: nat|
        {
            ||| n <= u64::MAX && text == #[trigger] decimal(n)
            ||| 1 <= n <= 0x8000_0000_0000_0000 && text == "-"@ + decimal(n)
        }
}

/// Whether a text is made of decimal digits, one at least.
pub open spec fn is_digits(text: Seq<char>) -> bool {
    text.len() > 0 && forall|i: int| 0 <= i < text.len() ==> '0' <= #[trigger] text[i] <= '9'
}

/// The number that decimal digits stand for.
pub open spec fn digits_value(digits: Seq<char>) -> nat
    decreases digits.len(),
{
    if digits.len() == 0 {
        0
    } else {
        digits_value(digits.drop_last()) * 10 + (digits.last() as nat - '0' as nat) as nat
    }
}

/// Whether a text is a decimal fraction, with a sign where it is negative, that is the quotient of
/// two whole numbers which a binary64 number holds exactly: its digits without the point stand for
/// at most two to the power of 53, and at most 22 of them come after the point.
pub open spec fn is_exact_fraction(text: Seq<char>) -> bool {
    exists|whole: Seq<char>, part: Seq<char>|
        {
            &&& #[trigger] is_digits(whole)
            &&& #[trigger] is_digits(part)
            &&& digits_value(whole + part) <= 0x20_0000_0000_0000
            &&& part.len() <= 22
            &&& text == whole + "."@ + part || text == "-"@ + whole + "."@ + part
        }
}

/// Whether a tree has integers and exact fractions as its only numbers, and arrays and objects at
/// most `depth` deep.
pub open spec fn is_plain(tree: JsonView, depth: nat) -> bool
    decreases depth,
{
    match tree {
        JsonView::Number(text) => is_integer(text) || is_exact_fraction(text),
        JsonView::Array(items) => depth > 0 && forall|i: int|
            0 <= i < items.len() ==> is_plain(#[trigger] items[i], (depth - 1) as nat),
        JsonView::Object(entries) => depth > 0 && forall|key: Seq<char>| #[trigger]
            entries.contains_key(key) ==> is_plain(entries[key], (depth - 1) as nat),
        _ => true,
    }
}

/// Whether a tree is sure to be read back as it was printed: its numbers are integers and exact
/// fractions, since another one may come back with its last digit off, and it is no deeper than
/// the parser goes.
pub open spec fn reads_back(tree: JsonView) -> bool {
    is_plain(tree, 127)
}

/// Whether a tree, once printed, is read back as it was.
pub open spec fn is_kept_as_text(tree: JsonView) -> bool {
    json_parsed(json_text(tree)) == Ok::<JsonView, Seq<char>>(tree)
}

/// `serde_json::Value::Null`: the JSON null.
#[verifier::external_body]
pub(crate) fn json_null() -> (value: serde_json::Value)
    ensures
        json_view(value) == JsonView::Null,
{
    serde_json::Value::Null
}

/// `serde_json::Value::Bool`: the given truth value as JSON.
#[verifier::external_body]
pub(crate) fn json_bool(flag: bool) -> (value: serde_json::Value)
    ensures
        json_view(value) == JsonView::Bool(flag),
{
    serde_json::Value::Bool(flag)
}

/// `<serde_json::Value as From<u64>>::from`: a JSON number that is written in decimal.
#[verifier::external_body]
pub(crate) fn json_number(n: u64) -> (value: serde_json::Value)
    ensures
        json_view(value) == JsonView::Number(decimal(n as nat)),
{
    serde_json::Value::from(n)
}

/// `serde_json::Value::String`: the given text as JSON.
#[verifier::external_body]
pub(crate) fn json_string(text: String) -> (value: serde_json::Value)
    ensures
        json_view(value) == JsonView::Str(text@),
{
    serde_json::Value::String(text)
}

/// `serde_json::Value::Array`: the given values, in their order.
#[verifier::external_body]
pub(crate) fn json_array(items: Vec<serde_json::Value>) -> (value: serde_json::Value)
    ensures
        json_view(value) == JsonView::Array(json_views(items@)),
{
    serde_json::Value::Array(items)
}

/// `serde_json::Value::Object`: the given entries.
#[verifier::external_body]
pub(crate) fn json_object(entries: serde_json::Map<String, serde_json::Value>) -> (value: serde_json::Value)
    ensures
        json_view(value) == JsonView::Object(map_view(entries)),
{
    serde_json::Value::Object(entries)
}

/// `serde_json::Value::get` with a key: the value under the key of an object, and nothing for a
/// value of another kind or for a key that the object does not hold.
#[verifier::external_body]
pub(crate) fn json_get<'a>(value: &'a serde_json::Value, key: &str) -> (found: Option<&'a serde_json::Value>)
    ensures
        match json_field(json_view(*value), key@) {
            Some(tree) => found is Some && json_view(*found->0) == tree,
            None => found is None,
        },
{
    value.get(key)
}

/// `serde_json::from_str` into a `serde_json::Value`. Its outcome is the one that `json_parsed`
/// names: the tree, or the message that the error displays.
#[verifier::external_body]
pub(crate) fn json_from_text(text: &str) -> (parsed: Result<serde_json::Value, String>)
    ensures
        parsed_view(parsed) == json_parsed(text@),
{
    match serde_json::from_str::<serde_json::Value>(text) {
        Ok(value) => Ok(value),
        Err(error) => Err(error.to_string()),
    }
}

/// `<serde_json::Value as ToString>::to_string`: the compact text that `json_text` names. The
/// entries of an object come in the order of their keys, so the text depends on the tree alone.
/// Where `reads_back` holds of the tree, `serde_json::from_str` makes the same tree of the text. Of
/// a fraction it prints the shortest digits that stand for it, and reads the quotient of the digits
/// and a power of ten, rounded once, which is the same number where both are held exactly.
#[verifier::external_body]
pub(crate) fn json_to_text(value: &serde_json::Value) -> (text: String)
    ensures
        text@ == json_text(json_view(*value)),
        match json_parsed(text@) {
            Ok(tree) => reads_back(json_view(*value)) ==> tree == json_view(*value),
            Err(_) => !reads_back(json_view(*value)),
        },
{
    value.to_string()
}

/// `serde_json::Value::as_str`: the text of a JSON string, and nothing for another kind.
pub assume_specification[ serde_json::Value::as_str ](value: &serde_json::Value) -> (text: Option<&str>)
    ensures
        match json_str(json_view(*value)) {
            Some(s) => text is Some && text->0@ == s,
            None => text is None,
        },
;

/// `<serde_json::Value as Clone>::clone`: a value with the same tree.
pub assume_specification[ <serde_json::Value as Clone>::clone ](value: &serde_json::Value) -> (copy: serde_json::Value)
    ensures
        json_view(copy) == json_view(*value),
;

/// `serde_json::Map::new`: a map without entries.
pub assume_specification[ serde_json::Map::<String, serde_json::Value>::new ]() -> (map: serde_json::Map<String, serde_json::Value>)
    ensures
        map_view(map) == no_entries(),
;

/// `serde_json::Map::insert`: afterwards the key has the given value and every other key is as
/// before. What it hands back is the value that the key had.
pub assume_specification[ serde_json::Map::<String, serde_json::Value>::insert ](
    map: &mut serde_json::Map<String, serde_json::Value>,
    k: String,
    v: serde_json::Value,
) -> (replaced: Option<serde_json::Value>)
    ensures
        map_view(*final(map)) == map_view(*old(map)).insert(k@, json_view(v)),
        match replaced {
            Some(value) => map_view(*old(map)).contains_key(k@) && map_view(*old(map))[k@]
                == json_view(value),
            None => !map_view(*old(map)).contains_key(k@),
        },
;

/// `serde_json::Map::append`: moves every entry of `other` into the map, where it takes the place
/// of an entry with the same key, and leaves `other` without entries.
pub assume_specification[ serde_json::Map::<String, serde_json::Value>::append ](
    map: &mut serde_json::Map<String, serde_json::Value>,
    other: &mut serde_json::Map<String, serde_json::Value>,
)
    ensures
        map_view(*final(map)) == map_view(*old(map)).union_prefer_right(map_view(*old(other))),
        map_view(*final(other)) == no_entries(),
;

/// `<serde_json::Map as Clone>::clone`: a map with the same entries.
pub assume_specification[ <serde_json::Map<String, serde_json::Value> as Clone>::clone ](
    map: &serde_json::Map<String, serde_json::Value>,
) -> (copy: serde_json::Map<String, serde_json::Value>)
    ensures
        map_view(copy) == map_view(*map),
;

/// Puts a value under a key.
pub(crate) fn put(
    map: &mut serde_json::Map<String, serde_json::Value>,
    key: &str,
    value: serde_json::Value,
)
    ensures
        map_view(*final(map)) == map_view(*old(map)).insert(key@, json_view(value)),
{
    let _ = map.insert(key.to_owned(), value);
}

/// Puts a text under a key.
pub(crate) fn put_text(
    map: &mut serde_json::Map<String, serde_json::Value>,
    key: &str,
    text: &str,
)
    ensures
        map_view(*final(map)) == map_view(*old(map)).insert(key@, JsonView::Str(text@)),
{
    put(map, key, json_string(text.to_owned()));
}

/// Puts a value under a key where there is one.
pub(crate) fn put_if_some(
    map: &mut serde_json::Map<String, serde_json::Value>,
    key: &str,
    value: Option<serde_json::Value>,
)
    ensures
        map_view(*final(map)) == with_entry(map_view(*old(map)), key@, opt_json(value)),
{
    match value {
        Some(value) => put(map, key, value),
        None => {},
    }
}

/// Puts a text under a key where there is one.
pub(crate) fn put_text_if_some(
    map: &mut serde_json::Map<String, serde_json::Value>,
    key: &str,
    text: &Option<String>,
)
    ensures
        map_view(*final(map)) == with_entry(map_view(*old(map)), key@, opt_str(opt_view(*text))),
{
    match text {
        Some(text) => put_text(map, key, text.as_str()),
        None => {},
    }
}

/// Makes the object with one entry.
pub(crate) fn single_value(key: &str, value: serde_json::Value) -> (object: serde_json::Value)
    ensures
        json_view(object) == single(key@, json_view(value)),
{
    let mut map = serde_json::Map::new();
    put(&mut map, key, value);
    json_object(map)
}

/// Makes the object that holds a kind under `type` and one more entry.
pub(crate) fn tagged_value(kind: &str, key: &str, value: serde_json::Value) -> (object: serde_json::Value)
    ensures
        json_view(object) == tagged(kind@, key@, json_view(value)),
{
    let mut map = serde_json::Map::new();
    put_text(&mut map, "type", kind);
    put(&mut map, key, value);
    json_object(map)
}

/// The text under a key, if the value is an object that holds a string there.
pub(crate) fn text_field<'a>(value: &'a serde_json::Value, key: &str) -> (text: Option<&'a str>)
    ensures
        match json_text_field(json_view(*value), key@) {
            Some(s) => text is Some && text->0@ == s,
            None => text is None,
        },
{
    match json_get(value, key) {
        Some(found) => found.as_str(),
        None => None,
    }
}

} // verus!
