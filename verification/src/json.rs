//! What the library reads out of JSON text. The text is read by
//! `serde_json`; what it finds has a name here, and what counts of it is
//! decided by those who ask.

use vstd::prelude::*;

verus! {

/// The error of `serde_json`.
#[verifier::external_type_specification]
#[verifier::external_body]
pub struct ExJsonError(serde_json::Error);

/// What a JSON document holds at one place, looked at no deeper: a value
/// that is no list and no object as it is, a number by its digits, and of
/// a list and an object the JSON text of what they hold.
#[derive(Clone, Debug, PartialEq, Eq)]
pub enum Shallow {
    Null,
    Bool(bool),
    /// A number, as it is written.
    Number(String),
    Text(String),
    /// A list: each element as JSON text, in the list's order.
    List(Vec<String>),
    /// An object, as JSON text.
    Object(String),
}

/// What a document holds at one place, with its texts as sequences of
/// characters.
pub enum ShallowView {
    Null,
    Bool(bool),
    Number(Seq<char>),
    Text(Seq<char>),
    List(Seq<Seq<char>>),
    Object(Seq<char>),
}

impl DeepView for Shallow {
    type V = ShallowView;

    open spec fn deep_view(&self) -> ShallowView {
        match *self {
            Shallow::Null => ShallowView::Null,
            Shallow::Bool(b) => ShallowView::Bool(b),
            Shallow::Number(digits) => ShallowView::Number(digits@),
            Shallow::Text(text) => ShallowView::Text(text@),
            Shallow::List(elements) => ShallowView::List(elements.deep_view()),
            Shallow::Object(text) => ShallowView::Object(text@),
        }
    }
}

/// What `serde_json` finds under `key` in `text`: nothing at all where
/// `text` is no JSON document; else nothing where the document is no
/// object or holds no member `key`; else the value of that member.
pub uninterp spec fn json_member(text: Seq<char>, key: Seq<char>) -> Option<Option<ShallowView>>;

/// `text` as `serde_json` writes it again after reading it; nothing where
/// `text` is no JSON document.
pub uninterp spec fn json_compact(text: Seq<char>) -> Option<Seq<char>>;

/// `serde_json::from_str` into a `Value`, then `Value::get` with `key`:
/// the value found there, one kind of `Shallow` for each kind of `Value`.
/// A number, the elements of an array and an object come as `Value`'s
/// `to_string` writes them. Fails exactly where `from_str` does.
#[verifier::external_body]
pub(crate) fn member(text: &str, key: &str) -> (r: Result<Option<Shallow>, serde_json::Error>)
    ensures
        match r {
            Ok(found) => json_member(text@, key@) == Some(found.deep_view()),
            Err(_) => json_member(text@, key@) is None,
        },
{
    let value: serde_json::Value = serde_json::from_str(text)?;
    Ok(value.get(key).map(|found| match found {
        serde_json::Value::Null => Shallow::Null,
        serde_json::Value::Bool(b) => Shallow::Bool(*b),
        serde_json::Value::Number(n) => Shallow::Number(n.to_string()),
        serde_json::Value::String(s) => Shallow::Text(s.clone()),
        serde_json::Value::Array(a) => Shallow::List(a.iter().map(|e| e.to_string()).collect()),
        serde_json::Value::Object(_) => Shallow::Object(found.to_string()),
    }))
}

/// `serde_json::from_str` into a `Value`, then `serde_json::to_string` of
/// it. Fails exactly where one of the two does.
#[verifier::external_body]
pub(crate) fn compact(text: &str) -> (r: Result<String, serde_json::Error>)
    ensures
        match r {
            Ok(written) => json_compact(text@) == Some(written@),
            Err(_) => json_compact(text@) is None,
        },
{
    let value: serde_json::Value = serde_json::from_str(text)?;
    serde_json::to_string(&value)
}

} // verus!
