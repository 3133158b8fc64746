//! Posts: the record, its filter and update documents, and its payload.

use crate::mongo::{
    canonical_id, doc_docs, doc_ids, doc_texts, empty_document, get_object_id, get_text,
    insert_object_id, insert_text, is_canonical_id_text, is_object_id_text,
    lemma_canonical_is_fixed, no_documents, no_fields, object_id_text, remove_field, to_object_id,
};
use crate::services::{Dto, Query, Record};
use mongodb::bson::Document;
use vstd::prelude::*;

verus! {

/// A post, and also the filter over posts: every field may be absent.
#[derive(Debug, Clone)]
pub struct Post {
    /// The store's identifier, absent until the post was created.
    pub id: Option<String>,
    /// Name of the post.
    pub name: Option<String>,
    /// Author name.
    pub author: Option<String>,
}

/// A post as a mathematical value.
pub struct PostView {
    pub id: Option<Seq<char>>,
    pub name: Option<Seq<char>>,
    pub author: Option<Seq<char>>,
}

/// The characters of an optional string.
pub open spec fn text_of(s: Option<String>) -> Option<Seq<char>> {
    match s {
        Some(t) => Some(t@),
        None => None,
    }
}

impl View for Post {
    type V = PostView;

    open spec fn view(&self) -> PostView {
        PostView { id: text_of(self.id), name: text_of(self.name), author: text_of(self.author) }
    }
}

/// The field of a document that holds the identifier.
pub open spec fn id_key() -> Seq<char> {
    "_id"@
}

/// The field that holds the name.
pub open spec fn name_key() -> Seq<char> {
    "name"@
}

/// The field that holds the author.
pub open spec fn author_key() -> Seq<char> {
    "author"@
}

/// The map with one more entry where a value is present.
pub open spec fn with_field(
    m: Map<Seq<char>, Seq<char>>,
    key: Seq<char>,
    value: Option<Seq<char>>,
) -> Map<Seq<char>, Seq<char>> {
    match value {
        Some(v) => m.insert(key, v),
        None => m,
    }
}

/// The entry of a map, if it has one.
pub open spec fn field_of(m: Map<Seq<char>, Seq<char>>, key: Seq<char>) -> Option<Seq<char>> {
    if m.contains_key(key) {
        Some(m[key])
    } else {
        None
    }
}

/// The string fields of a post's filter: name and author, each only where
/// present.
pub open spec fn filter_texts(p: PostView) -> Map<Seq<char>, Seq<char>> {
    with_field(with_field(no_fields(), name_key(), p.name), author_key(), p.author)
}

/// The identifier fields of a post's filter: the identifier in the store's
/// form where it is present and translates, and none otherwise.
pub open spec fn filter_ids(p: PostView) -> Map<Seq<char>, Seq<char>> {
    match p.id {
        Some(i) if is_object_id_text(i) => no_fields().insert(id_key(), canonical_id(i)),
        _ => no_fields(),
    }
}

/// The post that a document with these fields holds: each field where the
/// document has it with the right kind of value, absent otherwise.
pub open spec fn post_of(
    texts: Map<Seq<char>, Seq<char>>,
    ids: Map<Seq<char>, Seq<char>>,
) -> PostView {
    PostView {
        id: field_of(ids, id_key()),
        name: field_of(texts, name_key()),
        author: field_of(texts, author_key()),
    }
}

/// The three field names differ from one another.
pub proof fn lemma_keys_differ()
    ensures
        id_key() != name_key(),
        id_key() != author_key(),
        name_key() != author_key(),
{
    reveal_strlit("_id");
    reveal_strlit("name");
    reveal_strlit("author");
    assert(id_key().len() == 3);
    assert(name_key().len() == 4);
    assert(author_key().len() == 6);
}

impl Record for Post {
    open spec fn decodes(
        &self,
        texts: Map<Seq<char>, Seq<char>>,
        ids: Map<Seq<char>, Seq<char>>,
    ) -> bool {
        self@ == post_of(texts, ids)
    }

    open spec fn filters(
        &self,
        texts: Map<Seq<char>, Seq<char>>,
        ids: Map<Seq<char>, Seq<char>>,
    ) -> bool {
        texts == filter_texts(self@) && ids == filter_ids(self@)
    }

    open spec fn updates(
        &self,
        texts: Map<Seq<char>, Seq<char>>,
        ids: Map<Seq<char>, Seq<char>>,
    ) -> bool {
        texts == filter_texts(self@) && ids == no_fields()
    }

    /// The filter document of a post: a field for each present value. An
    /// identifier that does not translate into the store's form is left out.
    fn to_filter(self) -> (doc: Document)
        ensures
            doc_texts(doc) == filter_texts(self@),
            doc_ids(doc) == filter_ids(self@),
            doc_docs(doc) == no_documents(),
    {
        proof {
            lemma_keys_differ();
        }
        let mut document = empty_document();
        if let Some(name) = self.name {
            insert_text(&mut document, "name", name);
        }
        if let Some(author) = self.author {
            insert_text(&mut document, "author", author);
        }
        if let Some(id) = self.id {
            if let Ok(object_id) = to_object_id(id.as_str()) {
                insert_object_id(&mut document, "_id", object_id);
            }
        }
        assert(doc_texts(document) =~= filter_texts(self@));
        assert(doc_ids(document) =~= filter_ids(self@));
        assert(doc_docs(document) =~= no_documents());
        document
    }

    /// The post held by a document. A field that is missing or holds another
    /// kind of value is absent in the post.
    fn from_document(doc: &Document) -> (post: Post)
        ensures
            post@ == post_of(doc_texts(*doc), doc_ids(*doc)),
    {
        let id = match get_object_id(doc, "_id") {
            Some(v) => Some(object_id_text(&v)),
            None => None,
        };
        let name = get_text(doc, "name");
        let author = get_text(doc, "author");
        Post { id, name, author }
    }

    /// The fields that an update sets: those of the filter, never the
    /// identifier.
    fn to_update(self) -> (doc: Document)
        ensures
            doc_texts(doc) == filter_texts(self@),
            doc_ids(doc) == no_fields(),
            doc_docs(doc) == no_documents(),
    {
        proof {
            lemma_keys_differ();
        }
        let mut base_doc = self.to_filter();
        remove_field(&mut base_doc, "_id");
        assert(doc_texts(base_doc) =~= filter_texts(self@));
        assert(doc_ids(base_doc) =~= no_fields());
        assert(doc_docs(base_doc) =~= no_documents());
        base_doc
    }
}

impl Dto for Post {
    open spec fn identifier(&self) -> Option<Seq<char>> {
        self@.id
    }

    open spec fn same_fields(&self, before: &Self) -> bool {
        self@.name == before@.name && self@.author == before@.author
    }

    fn set_id(&mut self, id: String) {
        self.id = Some(id)
    }
}

impl Query for Post {
    open spec fn selects_only(&self, id: Seq<char>) -> bool {
        self@ == (PostView { id: Some(id), name: None, author: None })
    }

    fn from_string_id(id: String) -> (q: Post) {
        Post { id: Some(id), name: None, author: None }
    }
}

/// The payload of a create or an update: the fields a client may set, never
/// the identifier.
#[derive(Debug, PartialEq)]
pub struct PostUpsert {
    pub name: Option<String>,
    pub author: Option<String>,
}

impl From<PostUpsert> for Post {
    fn from(p: PostUpsert) -> (post: Post) {
        Post { id: None, name: p.name, author: p.author }
    }
}

impl vstd::std_specs::convert::FromSpecImpl<PostUpsert> for Post {
    open spec fn obeys_from_spec() -> bool {
        true
    }

    open spec fn from_spec(p: PostUpsert) -> Post {
        Post { id: None, name: p.name, author: p.author }
    }
}

/// What comes back when a post is turned into its filter document and that
/// document is read again: name and author as they were, an absent
/// identifier still absent, and a present one in the store's form, or absent
/// where it does not translate.
pub proof fn lemma_filter_then_read(p: PostView)
    ensures
        post_of(filter_texts(p), filter_ids(p)).name == p.name,
        post_of(filter_texts(p), filter_ids(p)).author == p.author,
        post_of(filter_texts(p), filter_ids(p)).id == match p.id {
            Some(i) if is_object_id_text(i) => Some(canonical_id(i)),
            _ => None,
        },
{
    lemma_keys_differ();
}

/// A post whose identifier is absent, or is written the way the store prints
/// identifiers, comes back unchanged from its filter document: every present
/// field with its value, every absent field absent.
pub proof fn lemma_round_trip(p: PostView)
    requires
        p.id matches Some(i) ==> is_canonical_id_text(i),
    ensures
        post_of(filter_texts(p), filter_ids(p)) == p,
{
    lemma_filter_then_read(p);
    if let Some(i) = p.id {
        lemma_canonical_is_fixed(i);
    }
}

/// The update document of a post never holds an identifier, whatever the
/// post's own: read back, it gives the post's name and author and no
/// identifier.
pub proof fn lemma_update_strips_identifier(p: PostView)
    ensures
        post_of(filter_texts(p), no_fields()) == (PostView { id: None, name: p.name, author: p.author }),
{
    lemma_keys_differ();
}

} // verus!
