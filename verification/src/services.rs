//! The operations of a document service and the pagination they share.

pub mod post_service;

use crate::error::{message_of, AppError};
use crate::mongo::{
    doc_docs, doc_ids, doc_texts, empty_document, insert_document, is_canonical_id_text, no_fields,
    object_id_text, oid_hex,
};
use mongodb::bson::oid::ObjectId;
use mongodb::bson::Document;
use vstd::prelude::*;
use vstd::string::StringExecFns;

verus! {

/// Page size used when the request gives none, or a negative one.
pub const PAGE_COUNT: i64 = 10;

/// Page number used when the request gives none, or a negative one.
pub const PAGE_NUMBER: i64 = 0;

/// The page a list request asks for: its number and its size.
#[derive(Debug, Clone, Copy)]
pub struct Pagination {
    pub number: Option<i64>,
    pub count: Option<i64>,
}

/// How many documents a find skips and how many it returns at most.
#[derive(Debug, Clone, Copy, PartialEq, Eq, Structural)]
pub struct PageWindow {
    pub skip: i64,
    pub limit: i64,
}

/// The page size in force: the requested one unless absent or negative.
pub open spec fn resolved_limit(count: Option<i64>) -> int {
    match count {
        Some(n) if n >= 0 => n as int,
        _ => PAGE_COUNT as int,
    }
}

/// The offset in force: page number times the resolved page size, unless the
/// page number is absent or negative.
pub open spec fn resolved_skip(number: Option<i64>, count: Option<i64>) -> int {
    match number {
        Some(n) if n >= 0 => n as int * resolved_limit(count),
        _ => PAGE_NUMBER as int,
    }
}

impl Pagination {
    /// The window of a list request: the page size, or the default where it
    /// is absent or negative; and as offset the page number times that
    /// resolved size, or the default where the number is absent or negative.
    pub fn as_find_options(&self) -> (w: PageWindow)
        requires
            resolved_skip(self.number, self.count) <= i64::MAX,
        ensures
            w.limit == resolved_limit(self.count),
            w.skip == resolved_skip(self.number, self.count),
            self.count is Some && self.count.unwrap() >= 0 ==> w.limit == self.count.unwrap(),
            self.count is None || self.count.unwrap() < 0 ==> w.limit == PAGE_COUNT,
            self.number is Some && self.number.unwrap() >= 0 ==> w.skip == self.number.unwrap()
                * w.limit,
            self.number is None || self.number.unwrap() < 0 ==> w.skip == PAGE_NUMBER,
    {
        let mut limit: i64 = PAGE_COUNT;
        let mut skip: i64 = PAGE_NUMBER;
        if let Some(n) = self.count {
            if n >= 0 {
                limit = n;
            }
        }
        if let Some(n) = self.number {
            if n >= 0 {
                assert(0 <= n * limit) by (nonlinear_arith)
                    requires
                        0 <= n,
                        0 <= limit,
                ;
                skip = n * limit;
            }
        }
        PageWindow { skip, limit }
    }

    /// The window of a list request, or nothing where the offset would not
    /// fit in 64 bits.
    pub fn checked_find_options(&self) -> (w: Option<PageWindow>)
        ensures
            w is Some <==> resolved_skip(self.number, self.count) <= i64::MAX,
            w matches Some(win) ==> win.limit == resolved_limit(self.count) && win.skip
                == resolved_skip(self.number, self.count),
    {
        let limit: i64 = match self.count {
            Some(n) if n >= 0 => n,
            _ => PAGE_COUNT,
        };
        match self.number {
            Some(n) if n >= 0 => {
                match n.checked_mul(limit) {
                    Some(_) => Some(self.as_find_options()),
                    None => {
                        assert(0 <= n * limit) by (nonlinear_arith)
                            requires
                                0 <= n,
                                0 <= limit,
                        ;
                        None
                    },
                }
            },
            _ => Some(self.as_find_options()),
        }
    }
}

/// A record that can take the identifier the store assigned to it.
pub trait Dto: Sized {
    /// The identifier the record carries, if any.
    spec fn identifier(&self) -> Option<Seq<char>>;

    /// Whether the record differs from `before` at most in its identifier.
    spec fn same_fields(&self, before: &Self) -> bool;

    /// Sets the identifier and leaves every other field as it was.
    fn set_id(&mut self, id: String)
        ensures
            final(self).identifier() == Some(id@),
            final(self).same_fields(old(self)),
    ;
}

/// A filter that can be built from a single identifier.
pub trait Query: Sized {
    /// Whether the filter's only set field is the identifier `id`.
    spec fn selects_only(&self, id: Seq<char>) -> bool;

    /// The filter that matches the record with this identifier.
    fn from_string_id(id: String) -> (q: Self)
        ensures
            q.selects_only(id@),
    ;
}

/// The conversions between a typed record and the store's documents.
pub trait Record: Dto {
    /// Whether the record is what a document with these fields decodes to.
    spec fn decodes(&self, texts: Map<Seq<char>, Seq<char>>, ids: Map<Seq<char>, Seq<char>>) -> bool;

    /// Whether these are the fields of the record's filter.
    spec fn filters(&self, texts: Map<Seq<char>, Seq<char>>, ids: Map<Seq<char>, Seq<char>>) -> bool;

    /// Whether these are the fields that an update to the record's values sets.
    spec fn updates(&self, texts: Map<Seq<char>, Seq<char>>, ids: Map<Seq<char>, Seq<char>>) -> bool;

    /// Reads a record out of a document.
    fn from_document(doc: &Document) -> (r: Self)
        ensures
            r.decodes(doc_texts(*doc), doc_ids(*doc)),
    ;

    /// The filter that matches on every field the record has.
    fn to_filter(self) -> (doc: Document)
        ensures
            self.filters(doc_texts(doc), doc_ids(doc)),
    ;

    /// The fields an update sets: those of the filter without the identifier.
    fn to_update(self) -> (doc: Document)
        ensures
            self.updates(doc_texts(doc), doc_ids(doc)),
    ;
}

/// The operator of an update that sets fields.
pub open spec fn set_operator() -> Seq<char> {
    "$set"@
}

/// The update for a record's new values: it sets the fields of the record's
/// update document, never the identifier, and holds nothing else.
pub fn update_modifications<T: Record>(data: T) -> (update: Document)
    ensures
        doc_docs(update).dom() == set![set_operator()],
        data.updates(doc_docs(update)[set_operator()].0, doc_docs(update)[set_operator()].1),
        doc_texts(update) == no_fields(),
        doc_ids(update) == no_fields(),
{
    let fields = data.to_update();
    let mut update = empty_document();
    insert_document(&mut update, "$set", fields);
    assert(doc_docs(update).dom() =~= set![set_operator()]);
    assert(doc_texts(update) =~= no_fields());
    assert(doc_ids(update) =~= no_fields());
    update
}

/// The text of the error for a query that matched nothing.
pub open spec fn not_found_text(name: Seq<char>, query: Seq<char>) -> Seq<char> {
    "A "@ + name + " with given filter: '"@ + query + "' not found"@
}

/// Whether `e` is the error for a query that matched nothing: not found,
/// with the resource's name and the query's serialized form; or, where the
/// query could not be serialized, an internal error with the serializer's
/// message.
pub open spec fn reports_no_match(e: AppError, name: Seq<char>, query: Result<String, String>) -> bool {
    match query {
        Ok(q) => e matches AppError::NotFound(m) && m@ == not_found_text(name, q@),
        Err(x) => e matches AppError::InternalServerError(m) && m@ == x@,
    }
}

/// The error for a query on `name` that matched nothing. `query_text` is
/// the query's serialized form, or the message of the serializer that
/// failed.
pub fn not_found(name: &str, query_text: &Result<String, String>) -> (r: Result<AppError, AppError>)
    ensures
        query_text is Ok <==> r is Ok,
        r matches Ok(e) ==> reports_no_match(e, name@, *query_text),
        r matches Err(e) ==> reports_no_match(e, name@, *query_text),
{
    match query_text {
        Ok(q) => {
            let mut text = String::from_str("A ");
            text.append(name);
            text.append(" with given filter: '");
            text.append(q.as_str());
            text.append("' not found");
            Ok(AppError::NotFound(text))
        },
        Err(x) => Err(AppError::InternalServerError(x.clone())),
    }
}

/// The text of the error for an assigned identifier of another kind than an
/// object identifier.
pub open spec fn unusable_identifier_text() -> Seq<char> {
    "The store assigned an identifier that is not an object id"@
}

/// What the store answered during an update.
pub enum PutReply {
    /// The update ran: how many documents it modified, or why it failed.
    Updated(Result<i64, AppError>),
    /// The look-up after the update ran: the document found, if any.
    Fetched(Result<Option<Document>, AppError>),
}

/// What an update does next.
pub enum PutAction<T> {
    /// Look the record up again, with the query the update ran with.
    Fetch,
    /// Answer the caller.
    Finish(Result<T, AppError>),
}

/// The outcome of a look-up for one record, as `get_one` decides it.
pub open spec fn found_one<T: Record>(
    r: Result<T, AppError>,
    name: Seq<char>,
    query: Result<String, String>,
    found: Result<Option<Document>, AppError>,
) -> bool {
    match found {
        Err(e) => r == Err::<T, AppError>(e),
        Ok(Some(doc)) => r matches Ok(t) && t.decodes(doc_texts(doc), doc_ids(doc)),
        Ok(None) => r matches Err(e) && reports_no_match(e, name, query),
    }
}

/// The outcome of a delete, as `delete` decides it from the number of
/// documents the store deleted.
pub open spec fn deleted_one(
    r: Result<(), AppError>,
    name: Seq<char>,
    query: Result<String, String>,
    deleted: Result<i64, AppError>,
) -> bool {
    match deleted {
        Err(e) => r == Err::<(), AppError>(e),
        Ok(n) if n > 0 => r is Ok,
        Ok(_) => r matches Err(e) && reports_no_match(e, name, query),
    }
}

/// A look-up that matched no document never gives a record, not even an
/// empty one: it fails, and with not found wherever the query could be
/// written out.
pub proof fn lemma_no_match_is_not_found<T: Record>(
    r: Result<T, AppError>,
    name: Seq<char>,
    query: Result<String, String>,
)
    requires
        found_one(r, name, query, Ok(None)),
    ensures
        r is Err,
        query matches Ok(q) ==> r->Err_0 is NotFound && message_of(r->Err_0) == not_found_text(
            name,
            q@,
        ),
{
}

/// A delete that found nothing to delete, as every delete after the first
/// does, is an error and not a silent success: not found wherever the query
/// could be written out.
pub proof fn lemma_delete_of_nothing_is_not_found(
    r: Result<(), AppError>,
    name: Seq<char>,
    query: Result<String, String>,
    deleted_count: i64,
)
    requires
        deleted_count <= 0,
        deleted_one(r, name, query, Ok(deleted_count)),
    ensures
        r is Err,
        query matches Ok(q) ==> r->Err_0 is NotFound && message_of(r->Err_0) == not_found_text(
            name,
            q@,
        ),
{
}

/// The first position of a failed item, or the length where none failed.
pub open spec fn first_failure(items: Seq<Result<Document, AppError>>) -> int
    decreases items.len(),
{
    if items.len() == 0 {
        0
    } else if items[0] is Err {
        0
    } else {
        1 + first_failure(items.skip(1))
    }
}

/// The first failure is a position in the sequence or its length; nothing
/// before it failed; and where it is a position, that item failed.
pub proof fn lemma_first_failure(items: Seq<Result<Document, AppError>>)
    ensures
        0 <= first_failure(items) <= items.len(),
        forall|i: int| 0 <= i < first_failure(items) ==> (#[trigger] items[i]) is Ok,
        first_failure(items) < items.len() ==> items[first_failure(items)] is Err,
    decreases items.len(),
{
    if items.len() > 0 && items[0] is Ok {
        let rest = items.skip(1);
        lemma_first_failure(rest);
        assert forall|i: int| 0 <= i < first_failure(items) implies (#[trigger] items[i]) is Ok by {
            if i > 0 {
                assert(rest[i - 1] == items[i]);
            }
        }
        if first_failure(items) < items.len() {
            assert(rest[first_failure(rest)] == items[first_failure(items)]);
        }
    }
}

/// A position that failed and has no failure before it is the first failure;
/// a sequence without failures has its length as first failure.
pub proof fn lemma_first_failure_is(items: Seq<Result<Document, AppError>>, at: int)
    requires
        0 <= at <= items.len(),
        forall|i: int| 0 <= i < at ==> (#[trigger] items[i]) is Ok,
        at < items.len() ==> items[at] is Err,
    ensures
        first_failure(items) == at,
{
    lemma_first_failure(items);
    let f = first_failure(items);
    if f < at {
        assert(items[f] is Ok);
    } else if at < f {
        assert(items[at] is Ok);
    }
}

/// A service for one kind of record. The store is asked by the caller; the
/// service decides what each answer of the store means.
pub trait DocumentService<T: Record> {
    /// The filter that the service's requests are made with.
    type Query: Query + Record;

    /// The name of the resource, as `name` returns it.
    spec fn resource(&self) -> Seq<char>;

    /// Name of the resource, used in error messages.
    fn name(&self) -> (n: &str)
        ensures
            n@ == self.resource(),
    ;

    /// Decides a look-up for exactly one record: the record read from the
    /// document found; not found where the store found none; and the store's
    /// failure unchanged.
    fn get_one(
        &self,
        query_text: &Result<String, String>,
        found: Result<Option<Document>, AppError>,
    ) -> (r: Result<T, AppError>)
        ensures
            found_one(r, self.resource(), *query_text, found),
    {
        match found {
            Err(e) => Err(e),
            Ok(Some(doc)) => Ok(T::from_document(&doc)),
            Ok(None) => match not_found(self.name(), query_text) {
                Ok(e) => Err(e),
                Err(e) => Err(e),
            },
        }
    }

    /// Decides a list request from what the cursor yielded, in order: every
    /// document read as a record, or the first failure among the items. An
    /// empty list is a valid answer.
    fn get_many(&self, items: Vec<Result<Document, AppError>>) -> (r: Result<Vec<T>, AppError>)
        ensures
            first_failure(items@) == items.len() ==> r is Ok,
            first_failure(items@) < items.len() ==> (items@[first_failure(items@)] matches Err(e)
                && r == Err::<Vec<T>, AppError>(e)),
            r matches Ok(records) ==> records.len() == items.len() && forall|i: int|
                0 <= i < items.len() ==> (#[trigger] records[i]).decodes(
                    doc_texts(items[i].unwrap()),
                    doc_ids(items[i].unwrap()),
                ),
    {
        let ghost all = items@;
        let mut pending = items;
        let mut results: Vec<T> = Vec::new();
        let mut i: usize = 0;
        while i < pending.len()
            invariant
                all == items@,
                pending@ == all,
                0 <= i <= all.len(),
                results.len() == i,
                forall|k: int| 0 <= k < i ==> (#[trigger] all[k]) is Ok,
                forall|k: int|
                    0 <= k < i ==> (#[trigger] results[k]).decodes(
                        doc_texts(all[k].unwrap()),
                        doc_ids(all[k].unwrap()),
                    ),
            decreases all.len() - i,
        {
            let failed = match &pending[i] {
                Ok(doc) => {
                    results.push(T::from_document(doc));
                    false
                },
                Err(_) => true,
            };
            if failed {
                proof {
                    lemma_first_failure_is(all, i as int);
                }
                let item = pending.swap_remove(i);
                match item {
                    Err(e) => {
                        return Err(e);
                    },
                    Ok(_) => {},
                }
            }
            i = i + 1;
        }
        proof {
            lemma_first_failure_is(all, all.len() as int);
        }
        Ok(results)
    }

    /// Decides a delete from the number of documents the store deleted:
    /// success where it deleted any, not found where it deleted none, and
    /// the store's failure unchanged.
    fn delete(&self, query_text: &Result<String, String>, deleted: Result<i64, AppError>) -> (r: Result<
        (),
        AppError,
    >)
        ensures
            deleted_one(r, self.resource(), *query_text, deleted),
    {
        match deleted {
            Err(e) => Err(e),
            Ok(n) => {
                if n > 0 {
                    Ok(())
                } else {
                    match not_found(self.name(), query_text) {
                        Ok(e) => Err(e),
                        Err(e) => Err(e),
                    }
                }
            },
        }
    }

    /// Decides a create from the identifier the store assigned, where it is
    /// an object identifier: the record as it was given, now with that
    /// identifier, which is never empty. An identifier of another kind is
    /// an internal error, and the store's failure is passed on unchanged.
    fn post(&self, data: T, inserted: Result<Option<ObjectId>, AppError>) -> (r: Result<T, AppError>)
        ensures
            match inserted {
                Err(e) => r == Err::<T, AppError>(e),
                Ok(None) => r matches Err(AppError::InternalServerError(m)) && m@
                    == unusable_identifier_text(),
                Ok(Some(id)) => r matches Ok(record) && record.identifier() == Some(oid_hex(id))
                    && record.same_fields(&data) && is_canonical_id_text(oid_hex(id))
                    && record.identifier().unwrap().len() > 0,
            },
    {
        match inserted {
            Err(e) => Err(e),
            Ok(None) => Err(
                AppError::InternalServerError(
                    String::from_str("The store assigned an identifier that is not an object id"),
                ),
            ),
            Ok(Some(id)) => {
                let mut result = data;
                result.set_id(object_id_text(&id));
                Ok(result)
            },
        }
    }

    /// Decides the next step of an update. After the update itself: look the
    /// record up again where the store modified a document, not found where
    /// it modified none. After the look-up: what `get_one` decides. A
    /// failure of the store ends the update unchanged.
    fn put(&self, query_text: &Result<String, String>, reply: PutReply) -> (action: PutAction<T>)
        ensures
            match reply {
                PutReply::Updated(Err(e)) => action == PutAction::<T>::Finish(Err(e)),
                PutReply::Updated(Ok(n)) if n > 0 => action is Fetch,
                PutReply::Updated(Ok(_)) => action matches PutAction::Finish(Err(e))
                    && reports_no_match(e, self.resource(), *query_text),
                PutReply::Fetched(found) => action matches PutAction::Finish(r) && found_one(
                    r,
                    self.resource(),
                    *query_text,
                    found,
                ),
            },
    {
        match reply {
            PutReply::Updated(Err(e)) => PutAction::Finish(Err(e)),
            PutReply::Updated(Ok(n)) => {
                if n > 0 {
                    PutAction::Fetch
                } else {
                    match not_found(self.name(), query_text) {
                        Ok(e) => PutAction::Finish(Err(e)),
                        Err(e) => PutAction::Finish(Err(e)),
                    }
                }
            },
            PutReply::Fetched(found) => PutAction::Finish(self.get_one(query_text, found)),
        }
    }
}

} // verus!
