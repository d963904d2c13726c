//! The trusted boundary to `serde_json`: reading a document, stepping into
//! it, and writing a string literal. Nothing in this file is proved; every
//! contract here states what the outside crate is taken to do.

use vstd::prelude::*;

verus! {

/// `serde_json::Value`, a document or a part of one. It is opaque here:
/// all that is known of a value is what `json_texts` says it holds.
#[verifier::external_type_specification]
#[verifier::external_body]
pub struct ExValue(serde_json::Value);

/// `serde_json::Error`, the reason why a text was rejected. It is opaque
/// here and only ever dropped.
#[verifier::external_type_specification]
#[verifier::external_body]
pub struct ExError(serde_json::Error);

/// One step into a document: into an object by a key, or into an array by
/// a position.
pub enum Step {
    Key(Seq<char>),
    Index(nat),
}

/// What `value` holds, path by path. The map has an entry for every path
/// that leads to a value inside `value`, the empty path leading to `value`
/// itself; the entry is the text of the value found there where that is a
/// string, and `None` where it is anything else.
pub uninterp spec fn json_texts(value: serde_json::Value) -> Map<Seq<Step>, Option<Seq<char>>>;

/// What the document holds that `serde_json::from_str` reads from `text`,
/// path by path as `json_texts` tells it; `None` where the text is rejected.
pub uninterp spec fn json_document(text: Seq<char>) -> Option<Map<Seq<Step>, Option<Seq<char>>>>;

/// The JSON string literal that stands for `text`, quotes included, as
/// `serde_json` writes it.
pub uninterp spec fn json_string_literal(text: Seq<char>) -> Seq<char>;

/// Whether `contents` has a value one `step` below its top.
pub open spec fn has_child(contents: Map<Seq<Step>, Option<Seq<char>>>, step: Step) -> bool {
    contents.contains_key(seq![step])
}

/// What the value one `step` below the top of `contents` holds: the
/// entries of `contents` whose paths begin with `step`, without that step.
pub open spec fn below(contents: Map<Seq<Step>, Option<Seq<char>>>, step: Step) -> Map<
    Seq<Step>,
    Option<Seq<char>>,
> {
    Map::new(
        |path: Seq<Step>| contents.contains_key(seq![step] + path),
        |path: Seq<Step>| contents[seq![step] + path],
    )
}

/// The text at the top of `contents`, if a string stands there.
pub open spec fn top_text(contents: Map<Seq<Step>, Option<Seq<char>>>) -> Option<Seq<char>> {
    if contents.contains_key(Seq::empty()) {
        contents[Seq::empty()]
    } else {
        None
    }
}

/// Calls `serde_json::from_str` for a `Value`. The contract claims that the
/// call succeeds exactly on the texts that `json_document` takes for
/// documents, and that the value it returns holds what `json_document`
/// says.
#[verifier::external_body]
pub(crate) fn parse_document(text: &str) -> (parsed: Result<serde_json::Value, serde_json::Error>)
    ensures
        parsed is Ok == json_document(text@) is Some,
        parsed matches Ok(value) ==> json_document(text@) == Some(json_texts(value)),
{
    serde_json::from_str::<serde_json::Value>(text)
}

/// Calls `Value::get` with a string index. The contract claims that a
/// value is found exactly where `value` has one under `key`, and that what
/// is found holds what `value` holds below that key.
#[verifier::external_body]
pub(crate) fn member<'a>(value: &'a serde_json::Value, key: &str) -> (found: Option<
    &'a serde_json::Value,
>)
    ensures
        found is Some == has_child(json_texts(*value), Step::Key(key@)),
        found matches Some(inner) ==> json_texts(*inner) == below(
            json_texts(*value),
            Step::Key(key@),
        ),
{
    value.get(key)
}

/// Calls `Value::get` with an integer index. The contract claims that a
/// value is found exactly where `value` has one at `index`, and that what
/// is found holds what `value` holds below that position.
#[verifier::external_body]
pub(crate) fn element<'a>(value: &'a serde_json::Value, index: usize) -> (found: Option<
    &'a serde_json::Value,
>)
    ensures
        found is Some == has_child(json_texts(*value), Step::Index(index as nat)),
        found matches Some(inner) ==> json_texts(*inner) == below(
            json_texts(*value),
            Step::Index(index as nat),
        ),
{
    value.get(index)
}

/// Calls `Value::as_str`. The contract claims that the text returned is
/// the one that `value` holds at its top, and that none is returned where
/// no string stands there.
#[verifier::external_body]
pub(crate) fn text_of<'a>(value: &'a serde_json::Value) -> (text: Option<&'a str>)
    ensures
        text is Some == top_text(json_texts(*value)) is Some,
        text matches Some(inner) ==> top_text(json_texts(*value)) == Some(inner@),
{
    value.as_str()
}

/// Writes `text` as a JSON string through `serde_json`'s serializer, by way
/// of `Value::String` and its `Display` impl. The contract names the result
/// `json_string_literal`.
#[verifier::external_body]
pub(crate) fn quote(text: &str) -> (literal: String)
    ensures
        literal@ == json_string_literal(text@),
{
    serde_json::Value::String(text.to_owned()).to_string()
}

} // verus!
