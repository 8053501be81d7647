//! The JSON documents that the API answers with, as a mathematical tree, and
//! the `serde_json` calls through which the library reads them.

use vstd::prelude::*;

verus! {

#[verifier::external_type_specification]
#[verifier::external_body]
pub struct ExValue(serde_json::Value);

/// What a JSON value holds.
///
/// A number is kept as the literal that `serde_json` prints for it: the
/// library never computes with the decimal quantities it carries.
pub enum JsonView {
    Null,
    Bool(bool),
    Number(Seq<char>),
    Text(Seq<char>),
    Array(Seq<JsonView>),
    Object(Map<Seq<char>, JsonView>),
}

/// The tree that a `serde_json::Value` holds.
pub uninterp spec fn json_tree(value: serde_json::Value) -> JsonView;

/// What `serde_json::from_str` makes of a text: the tree of the document, or
/// the parser's message where the text is no JSON document.
pub uninterp spec fn json_document(text: Seq<char>) -> Result<JsonView, Seq<char>>;

/// Calls `serde_json::from_str` for a `serde_json::Value` and turns the
/// parser's error into its `Display` text.
///
/// Trusted: the outcome depends on the text alone, which is all that the
/// contract claims by giving it the name `json_document`.
#[verifier::external_body]
pub(crate) fn parse_document(text: &str) -> (res: Result<serde_json::Value, String>)
    ensures
        match res {
            Ok(value) => json_document(text@) == Ok::<JsonView, Seq<char>>(json_tree(value)),
            Err(message) => json_document(text@) == Err::<JsonView, Seq<char>>(message@),
        },
{
    match serde_json::from_str::<serde_json::Value>(text) {
        Ok(value) => Ok(value),
        Err(error) => Err(error.to_string()),
    }
}

/// Calls `serde_json::Value::as_array`.
///
/// Trusted: an array hands out its elements, in order; any other value
/// gives `None`.
#[verifier::external_body]
pub(crate) fn items(value: &serde_json::Value) -> (res: Option<&Vec<serde_json::Value>>)
    ensures
        match json_tree(*value) {
            JsonView::Array(elements) => {
                &&& res is Some
                &&& res.unwrap()@.len() == elements.len()
                &&& forall|i: int|
                    0 <= i < elements.len() ==> json_tree(#[trigger] res.unwrap()@[i])
                        == elements[i]
            },
            _ => res is None,
        },
{
    value.as_array()
}

/// Calls `serde_json::Value::get` with a string key.
///
/// Trusted: an object that has the key hands out the value under it; an
/// object without the key, and any value that is no object, gives `None`.
#[verifier::external_body]
pub(crate) fn member<'a>(value: &'a serde_json::Value, name: &str) -> (res: Option<
    &'a serde_json::Value,
>)
    ensures
        match json_tree(*value) {
            JsonView::Object(members) if members.contains_key(name@) => {
                &&& res is Some
                &&& json_tree(*res.unwrap()) == members[name@]
            },
            _ => res is None,
        },
{
    value.get(name)
}

/// Calls `serde_json::Value::as_str`.
///
/// Trusted: a string hands out its characters; any other value gives `None`.
#[verifier::external_body]
pub(crate) fn text<'a>(value: &'a serde_json::Value) -> (res: Option<&'a str>)
    ensures
        match json_tree(*value) {
            JsonView::Text(characters) => res is Some && res.unwrap()@ == characters,
            _ => res is None,
        },
{
    value.as_str()
}

/// Calls `serde_json::Value::as_bool`.
///
/// Trusted: a boolean hands out its value; any other value gives `None`.
#[verifier::external_body]
pub(crate) fn flag(value: &serde_json::Value) -> (res: Option<bool>)
    ensures
        match json_tree(*value) {
            JsonView::Bool(b) => res == Some(b),
            _ => res is None,
        },
{
    value.as_bool()
}

/// Calls `serde_json::Value::is_null`.
///
/// Trusted: true for `null` and for nothing else.
#[verifier::external_body]
pub(crate) fn is_null(value: &serde_json::Value) -> (res: bool)
    ensures
        res == (json_tree(*value) is Null),
{
    value.is_null()
}

/// Calls `serde_json::Value::as_number` and prints the number with its
/// `Display` impl.
///
/// Trusted: a number hands out its literal; any other value gives `None`.
#[verifier::external_body]
pub(crate) fn number(value: &serde_json::Value) -> (res: Option<String>)
    ensures
        match json_tree(*value) {
            JsonView::Number(literal) => res is Some && res.unwrap()@ == literal,
            _ => res is None,
        },
{
    match value.as_number() {
        Some(n) => Some(n.to_string()),
        None => None,
    }
}

} // verus!
