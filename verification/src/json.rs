//! Decoding of the two payloads of the feed. The JSON text itself is read
//! by `serde_json`; which members make a story is decided in
//! [`Story::from_fields`].

use vstd::prelude::*;
use crate::story::{
    decoded_view, key_of, story_of, DecodeError, Field, FieldName, FieldView, ItemFields,
    ItemFieldsView, Story, StoryView,
};

verus! {

/// A parsed JSON document of `serde_json`. Nothing of its inside is visible
/// here; [`members`] names what it holds.
#[verifier::external_type_specification]
#[verifier::external_body]
pub struct ExValue(serde_json::Value);

/// The error of `serde_json`. It is only ever mapped to a [`DecodeError`].
#[verifier::external_type_specification]
#[verifier::external_body]
pub struct ExJsonError(serde_json::Error);

/// What a parsed document holds: for a JSON object, each of its keys with
/// the value under it; for any other document, nothing.
pub uninterp spec fn members(doc: serde_json::Value) -> Map<Seq<char>, FieldView>;

/// The members of the document that `text` is, where it is a JSON document.
pub uninterp spec fn document_members(text: Seq<char>) -> Option<Map<Seq<char>, FieldView>>;

/// The list of story identifiers that `text` is, where it is a JSON array
/// of integers that each fit in 32 bits without sign.
pub uninterp spec fn id_list(text: Seq<char>) -> Option<Seq<u32>>;

/// What `m` holds under `key`.
pub open spec fn member_of(m: Map<Seq<char>, FieldView>, key: Seq<char>) -> FieldView {
    if m.contains_key(key) {
        m[key]
    } else {
        FieldView::Missing
    }
}

/// Calls `serde_json::from_str` for a `serde_json::Value`. Trusted: whether
/// the call succeeds, and what the document then holds, depends on the text
/// alone.
#[verifier::external_body]
fn parse_document(text: &str) -> (r: Result<serde_json::Value, serde_json::Error>)
    ensures
        match r {
            Ok(doc) => document_members(text@) == Some(members(doc)),
            Err(_) => document_members(text@) is None,
        },
{
    serde_json::from_str::<serde_json::Value>(text)
}

/// Calls `serde_json::Value::get` with a key, and `serde_json::Number::as_i64`
/// on a number found there. Trusted: the result is what the document holds
/// under the key, and `Missing` where it holds nothing under it.
#[verifier::external_body]
fn member(doc: &serde_json::Value, key: &str) -> (r: Field)
    ensures
        r@ == member_of(members(*doc), key@),
{
    match doc.get(key) {
        None => Field::Missing,
        Some(serde_json::Value::Null) => Field::Null,
        Some(serde_json::Value::Bool(b)) => Field::Bool(*b),
        Some(serde_json::Value::Number(n)) => Field::Number(n.as_i64()),
        Some(serde_json::Value::String(s)) => Field::Text(s.clone()),
        Some(serde_json::Value::Array(_)) => Field::Array,
        Some(serde_json::Value::Object(_)) => Field::Object,
    }
}

/// Calls `serde_json::from_str` for a `Vec<u32>`. Trusted: whether the call
/// succeeds, and the list that it then gives, depend on the text alone.
#[verifier::external_body]
fn parse_id_list(text: &str) -> (r: Result<Vec<u32>, serde_json::Error>)
    ensures
        match r {
            Ok(ids) => id_list(text@) == Some(ids@),
            Err(_) => id_list(text@) is None,
        },
{
    serde_json::from_str::<Vec<u32>>(text)
}

/// The four members that a story is read from, out of all that a document
/// holds.
pub open spec fn item_fields(m: Map<Seq<char>, FieldView>) -> ItemFieldsView {
    ItemFieldsView {
        title: member_of(m, key_of(FieldName::Title)),
        url: member_of(m, key_of(FieldName::Url)),
        score: member_of(m, key_of(FieldName::Score)),
        by: member_of(m, key_of(FieldName::By)),
    }
}

/// What decoding a detail payload gives.
pub open spec fn story_in(text: Seq<char>) -> Result<StoryView, DecodeError> {
    match document_members(text) {
        Some(m) => story_of(item_fields(m)),
        None => Err(DecodeError::Syntax),
    }
}

/// Decodes a detail payload: a JSON object with the members `title`,
/// `score` and `by`, and perhaps `url`. Other members are passed over. A
/// document that is no object has no members, and so lacks the title.
pub fn decode_story(text: &str) -> (r: Result<Story, DecodeError>)
    ensures
        decoded_view(r) == story_in(text@),
{
    match parse_document(text) {
        Ok(doc) => {
            let fields = ItemFields {
                title: member(&doc, FieldName::Title.key()),
                url: member(&doc, FieldName::Url.key()),
                score: member(&doc, FieldName::Score.key()),
                by: member(&doc, FieldName::By.key()),
            };
            Story::from_fields(fields)
        },
        Err(_) => Err(DecodeError::Syntax),
    }
}

/// Decodes a list payload: a JSON array of story identifiers, in the order
/// of the payload.
pub fn decode_ids(text: &str) -> (r: Result<Vec<u32>, DecodeError>)
    ensures
        match r {
            Ok(ids) => id_list(text@) == Some(ids@),
            Err(e) => id_list(text@) is None && e == DecodeError::IdList,
        },
{
    match parse_id_list(text) {
        Ok(ids) => Ok(ids),
        Err(_) => Err(DecodeError::IdList),
    }
}

} // verus!
