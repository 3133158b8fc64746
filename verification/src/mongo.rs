//! What the library needs of the store's data types: documents as maps from
//! field names to values, and object identifiers with their hexadecimal text.

use crate::error::AppError;
use mongodb::bson::oid::ObjectId;
use mongodb::bson::Document;
use vstd::prelude::*;

verus! {

/// The store's document, `bson::Document`: an ordered map from field names
/// to values of any kind. Its fields are spoken of through `doc_texts`,
/// `doc_ids` and `doc_docs`.
#[verifier::external_type_specification]
#[verifier::external_body]
pub struct ExDocument(mongodb::bson::Document);

/// The store's identifier, `bson::oid::ObjectId`: twelve bytes, spoken of
/// through their hexadecimal text, `oid_hex`.
#[verifier::external_type_specification]
#[verifier::external_body]
pub struct ExObjectId(mongodb::bson::oid::ObjectId);

/// The error of `ObjectId::with_string`, `bson::oid::Error`. Nothing is
/// known of it but the message it displays.
#[verifier::external_type_specification]
#[verifier::external_body]
pub struct ExObjectIdError(mongodb::bson::oid::Error);

/// The fields of a document that hold a string, each with its string: the
/// keys on which `Document::get_str` succeeds, with what it returns.
pub uninterp spec fn doc_texts(doc: Document) -> Map<Seq<char>, Seq<char>>;

/// The fields of a document that hold an object identifier, each with the
/// identifier's hexadecimal text: the keys on which `Document::get_object_id`
/// succeeds, with the text of what it returns.
pub uninterp spec fn doc_ids(doc: Document) -> Map<Seq<char>, Seq<char>>;

/// The fields of a document that hold a document, each with the string
/// fields and the identifier fields of the document it holds: the keys on
/// which `Document::get_document` succeeds, with what it returns.
pub uninterp spec fn doc_docs(doc: Document) -> Map<
    Seq<char>,
    (Map<Seq<char>, Seq<char>>, Map<Seq<char>, Seq<char>>),
>;

/// The hexadecimal text of an object identifier, as `ObjectId::to_hex`
/// returns it and as the identifier displays.
pub uninterp spec fn oid_hex(id: ObjectId) -> Seq<char>;

/// The fields of a document that has none.
pub open spec fn no_fields() -> Map<Seq<char>, Seq<char>> {
    Map::empty()
}

/// The nested documents of a document that has none.
pub open spec fn no_documents() -> Map<
    Seq<char>,
    (Map<Seq<char>, Seq<char>>, Map<Seq<char>, Seq<char>>),
> {
    Map::empty()
}

/// A hexadecimal digit in either case.
pub open spec fn is_hex_digit(c: char) -> bool {
    ('0' <= c && c <= '9') || ('a' <= c && c <= 'f') || ('A' <= c && c <= 'F')
}

/// A decimal digit or a lower-case hexadecimal letter.
pub open spec fn is_lower_hex_digit(c: char) -> bool {
    ('0' <= c && c <= '9') || ('a' <= c && c <= 'f')
}

/// The digit in lower case.
pub open spec fn lower_hex(c: char) -> char {
    if 'A' <= c && c <= 'F' {
        ((c as u32) + 32) as char
    } else {
        c
    }
}

/// Text that names an object identifier: 24 hexadecimal digits.
pub open spec fn is_object_id_text(s: Seq<char>) -> bool {
    s.len() == 24 && forall|i: int| 0 <= i < s.len() ==> is_hex_digit(#[trigger] s[i])
}

/// Text in the form the store prints identifiers: 24 lower-case digits.
pub open spec fn is_canonical_id_text(s: Seq<char>) -> bool {
    s.len() == 24 && forall|i: int| 0 <= i < s.len() ==> is_lower_hex_digit(#[trigger] s[i])
}

/// The text with every digit in lower case.
pub open spec fn canonical_id(s: Seq<char>) -> Seq<char> {
    Seq::new(s.len(), |i: int| lower_hex(s[i]))
}

/// Canonical text names an identifier and is its own canonical form.
pub proof fn lemma_canonical_is_fixed(s: Seq<char>)
    requires
        is_canonical_id_text(s),
    ensures
        is_object_id_text(s),
        canonical_id(s) == s,
{
    assert forall|i: int| 0 <= i < s.len() implies is_hex_digit(#[trigger] s[i]) by {
        assert(is_lower_hex_digit(s[i]));
    }
    assert forall|i: int| 0 <= i < s.len() implies canonical_id(s)[i] == s[i] by {
        assert(is_lower_hex_digit(s[i]));
    }
    assert(canonical_id(s) =~= s);
}

/// `Document::new`: a document without any field.
#[verifier::external_body]
pub(crate) fn empty_document() -> (doc: Document)
    ensures
        doc_texts(doc) == no_fields(),
        doc_ids(doc) == no_fields(),
        doc_docs(doc) == no_documents(),
{
    Document::new()
}

/// `Document::insert` with a string value: the field then holds that string
/// and nothing else; every other field is as before.
#[verifier::external_body]
pub(crate) fn insert_text(doc: &mut Document, key: &str, value: String)
    ensures
        doc_texts(*final(doc)) == doc_texts(*old(doc)).insert(key@, value@),
        doc_ids(*final(doc)) == doc_ids(*old(doc)).remove(key@),
        doc_docs(*final(doc)) == doc_docs(*old(doc)).remove(key@),
{
    doc.insert(key, value);
}

/// `Document::insert` with an object identifier: the field then holds that
/// identifier and nothing else; every other field is as before.
#[verifier::external_body]
pub(crate) fn insert_object_id(doc: &mut Document, key: &str, id: ObjectId)
    ensures
        doc_ids(*final(doc)) == doc_ids(*old(doc)).insert(key@, oid_hex(id)),
        doc_texts(*final(doc)) == doc_texts(*old(doc)).remove(key@),
        doc_docs(*final(doc)) == doc_docs(*old(doc)).remove(key@),
{
    doc.insert(key, id);
}

/// `Document::insert` with a document: the field then holds that document
/// and nothing else; every other field is as before.
#[verifier::external_body]
pub(crate) fn insert_document(doc: &mut Document, key: &str, value: Document)
    ensures
        doc_docs(*final(doc)) == doc_docs(*old(doc)).insert(key@, (doc_texts(value), doc_ids(value))),
        doc_texts(*final(doc)) == doc_texts(*old(doc)).remove(key@),
        doc_ids(*final(doc)) == doc_ids(*old(doc)).remove(key@),
{
    doc.insert(key, value);
}

/// `Document::remove`: the field is gone; every other field is as before.
#[verifier::external_body]
pub(crate) fn remove_field(doc: &mut Document, key: &str)
    ensures
        doc_texts(*final(doc)) == doc_texts(*old(doc)).remove(key@),
        doc_ids(*final(doc)) == doc_ids(*old(doc)).remove(key@),
        doc_docs(*final(doc)) == doc_docs(*old(doc)).remove(key@),
{
    doc.remove(key);
}

/// `Document::get_str`: the string of a field that holds one, and nothing
/// for a field that is missing or holds another kind of value.
#[verifier::external_body]
pub(crate) fn get_text(doc: &Document, key: &str) -> (value: Option<String>)
    ensures
        value == None::<String> <==> !doc_texts(*doc).contains_key(key@),
        value matches Some(v) ==> v@ == doc_texts(*doc)[key@],
{
    match doc.get_str(key) {
        Ok(v) => Some(v.to_string()),
        Err(_) => None,
    }
}

/// `Document::get_object_id`: the identifier of a field that holds one, and
/// nothing for a field that is missing or holds another kind of value.
#[verifier::external_body]
pub(crate) fn get_object_id(doc: &Document, key: &str) -> (value: Option<ObjectId>)
    ensures
        value == None::<ObjectId> <==> !doc_ids(*doc).contains_key(key@),
        value matches Some(id) ==> oid_hex(id) == doc_ids(*doc)[key@],
{
    match doc.get_object_id(key) {
        Ok(id) => Some(id.clone()),
        Err(_) => None,
    }
}

/// `ObjectId::to_string`: the identifier's twelve bytes as 24 lower-case
/// hexadecimal digits.
#[verifier::external_body]
pub(crate) fn object_id_text(id: &ObjectId) -> (text: String)
    ensures
        text@ == oid_hex(*id),
        is_canonical_id_text(text@),
{
    id.to_string()
}

/// `ObjectId::with_string`: succeeds on exactly the texts of 24 hexadecimal
/// digits, and the identifier it gives prints as that text in lower case.
#[verifier::external_body]
pub(crate) fn object_id_with_string(id: &str) -> (parsed: Result<ObjectId, mongodb::bson::oid::Error>)
    ensures
        parsed is Ok <==> is_object_id_text(id@),
        parsed matches Ok(oid) ==> oid_hex(oid) == canonical_id(id@),
{
    ObjectId::with_string(id)
}

/// `to_string` of the identifier error: the message it displays.
#[verifier::external_body]
pub(crate) fn object_id_error_text(e: &mongodb::bson::oid::Error) -> (text: String)
{
    e.to_string()
}

/// Translates text into the store's identifier. Text that is not 24
/// hexadecimal digits is refused as an internal error.
pub fn to_object_id(id: &str) -> (r: Result<ObjectId, AppError>)
    ensures
        r is Ok <==> is_object_id_text(id@),
        r matches Ok(oid) ==> oid_hex(oid) == canonical_id(id@),
        r matches Err(e) ==> e is InternalServerError,
{
    match object_id_with_string(id) {
        Ok(oid) => Ok(oid),
        Err(e) => Err(AppError::InternalServerError(object_id_error_text(&e))),
    }
}

} // verus!
