//! The documents that the repository hands to the store: the filter that
//! selects an item by its identifier, and the update that replaces an item's
//! text and completion flag.
//!
//! They are `bson::Document` values, built by the `bson` crate. Verus sees
//! nothing inside such a value, so the fields that a document holds are given
//! a name, [`document_fields`], and the functions below that call the crate
//! are trusted to do to those fields what their contracts say.

use crate::item::{PayloadItem, PayloadItemView};
use vstd::prelude::*;

verus! {

/// `bson::Document`: a BSON document, an ordered map from field names to
/// values. It is carried as it is; what it holds is read through
/// [`document_fields`].
#[verifier::external_type_specification]
#[verifier::external_body]
pub struct ExDocument(bson::Document);

/// What a field of a document holds, as far as this library builds documents.
pub enum Value {
    /// A binary value of the UUID subtype: the sixteen bytes of the number,
    /// first byte most significant.
    Uuid(u128),
    /// A string.
    Text(Seq<char>),
    /// A boolean.
    Flag(bool),
    /// An embedded document, by its fields.
    Document(Map<Seq<char>, Value>),
}

/// The fields of a `bson::Document`: each name with the value that the
/// document holds under it. A document holds a name once. The order of the
/// fields is left out, and of a value of a kind that [`Value`] does not list
/// nothing is said.
pub uninterp spec fn document_fields(document: bson::Document) -> Map<Seq<char>, Value>;

/// No fields at all.
pub open spec fn no_fields() -> Map<Seq<char>, Value> {
    Map::empty()
}

/// `bson::Document::new` returns a document without fields. Trusted.
pub assume_specification[ bson::Document::new ]() -> (empty: bson::Document)
    ensures
        document_fields(empty) == no_fields(),
;

/// Calls `bson::Document::insert` with a UUID made by `uuid::Uuid::from_u128`.
/// `insert` turns the UUID into a binary value of the UUID subtype that holds
/// its sixteen bytes, and sets the field `key` to it: a field of that name
/// gets the new value, and where there was none the field is added. Trusted.
#[verifier::external_body]
fn insert_uuid(document: &mut bson::Document, key: &str, id: u128)
    ensures
        document_fields(*final(document)) == document_fields(*old(document)).insert(
            key@,
            Value::Uuid(id),
        ),
{
    document.insert(key, uuid::Uuid::from_u128(id));
}

/// Calls `bson::Document::insert` with a string, which sets the field `key`
/// to a string value that holds `text`. Trusted.
#[verifier::external_body]
fn insert_text(document: &mut bson::Document, key: &str, text: String)
    ensures
        document_fields(*final(document)) == document_fields(*old(document)).insert(
            key@,
            Value::Text(text@),
        ),
{
    document.insert(key, text);
}

/// Calls `bson::Document::insert` with a `bool`, which sets the field `key`
/// to a boolean value that holds `flag`. Trusted.
#[verifier::external_body]
fn insert_flag(document: &mut bson::Document, key: &str, flag: bool)
    ensures
        document_fields(*final(document)) == document_fields(*old(document)).insert(
            key@,
            Value::Flag(flag),
        ),
{
    document.insert(key, flag);
}

/// Calls `bson::Document::insert` with a document, which sets the field `key`
/// to an embedded document that holds the fields of `inner`. Trusted.
#[verifier::external_body]
fn insert_document(document: &mut bson::Document, key: &str, inner: bson::Document)
    ensures
        document_fields(*final(document)) == document_fields(*old(document)).insert(
            key@,
            Value::Document(document_fields(inner)),
        ),
{
    document.insert(key, inner);
}

/// The fields of the filter that selects the items stored under `id`:
/// `{ id: <id> }`.
pub open spec fn id_filter_fields(id: u128) -> Map<Seq<char>, Value> {
    map!["id"@ => Value::Uuid(id)]
}

/// The fields of the update that replaces an item's text and completion flag
/// by those of `payload` and leaves its other fields alone:
/// `{ $set: { text: <text>, complete: <complete> } }`.
pub open spec fn set_update_fields(payload: PayloadItemView) -> Map<Seq<char>, Value> {
    map![
        "$set"@ => Value::Document(
            map![
                "text"@ => Value::Text(payload.text),
                "complete"@ => Value::Flag(payload.complete),
            ],
        ),
    ]
}

/// Builds the filter that selects the items stored under `id`.
pub fn id_filter(id: u128) -> (filter: bson::Document)
    ensures
        document_fields(filter) == id_filter_fields(id),
{
    let mut filter = bson::Document::new();
    insert_uuid(&mut filter, "id", id);
    filter
}

/// Builds the update that replaces an item's text and completion flag by
/// those of `payload`.
pub fn set_update(payload: &PayloadItem) -> (update: bson::Document)
    ensures
        document_fields(update) == set_update_fields(payload@),
{
    let mut fields = bson::Document::new();
    insert_text(&mut fields, "text", payload.text.clone());
    insert_flag(&mut fields, "complete", payload.complete);
    let mut update = bson::Document::new();
    insert_document(&mut update, "$set", fields);
    update
}

} // verus!
