//! The answers of the record service: for each of its five requests, what
//! becomes of the store and which status and body go back to the client.

use vstd::prelude::*;
use crate::json::{list_to_json, not_found_json, record_json, records_json};
use crate::record::{NotFound, NotFoundView, Record, RecordView, missing};
use crate::store::{Store, after_create, after_delete, after_update, first_match, has_id};

verus! {

/// Status of a request that was served.
pub const OK: u16 = 200;

/// Status of a request that created a record.
pub const CREATED: u16 = 201;

/// Status of a request whose id matched no record.
pub const NOT_FOUND: u16 = 404;

/// What an answer is, mathematically.
pub struct ResponseView {
    pub status: u16,
    pub content_type_json: bool,
    pub body: Seq<char>,
}

/// An answer to a request: the status, whether the body is declared as JSON
/// by a content type, and the body.
#[derive(Debug, PartialEq, Eq)]
pub struct Response {
    pub status: u16,
    pub content_type_json: bool,
    pub body: String,
}

impl View for Response {
    type V = ResponseView;

    open spec fn view(&self) -> ResponseView {
        ResponseView {
            status: self.status,
            content_type_json: self.content_type_json,
            body: self.body@,
        }
    }
}

/// The answer that carries `record` under `status`.
pub open spec fn record_response(status: u16, record: RecordView) -> ResponseView {
    ResponseView { status, content_type_json: true, body: record_json(record) }
}

/// The answer that carries all of `records`.
pub open spec fn list_response(records: Seq<RecordView>) -> ResponseView {
    ResponseView { status: OK, content_type_json: true, body: records_json(records) }
}

/// The answer that reports `e`. It declares no content type.
pub open spec fn error_response(e: NotFoundView) -> ResponseView {
    ResponseView { status: NOT_FOUND, content_type_json: false, body: not_found_json(e) }
}

/// The answer to a fetch of `id` from `records`.
pub open spec fn get_response(records: Seq<RecordView>, id: u32) -> ResponseView {
    if has_id(records, id) {
        record_response(OK, records[first_match(records, id)])
    } else {
        error_response(missing(id))
    }
}

/// The answer to an update addressed to `id` that carries `record`.
pub open spec fn update_response(records: Seq<RecordView>, id: u32, record: RecordView)
    -> ResponseView {
    if has_id(records, id) {
        record_response(OK, record)
    } else {
        error_response(missing(id))
    }
}

/// The answer to a delete of `id` from `records`: the record that left.
pub open spec fn delete_response(records: Seq<RecordView>, id: u32) -> ResponseView {
    if has_id(records, id) {
        record_response(OK, records[first_match(records, id)])
    } else {
        error_response(missing(id))
    }
}

impl Record {
    /// The answer that carries this record under `status`.
    pub fn respond_with(&self, status: u16) -> (response: Response)
        ensures
            response@ == record_response(status, self@),
    {
        Response { status, content_type_json: true, body: self.to_json() }
    }

    /// The answer that carries this record as served.
    pub fn respond(&self) -> (response: Response)
        ensures
            response@ == record_response(OK, self@),
    {
        self.respond_with(OK)
    }
}

impl NotFound {
    /// The status under which this error is reported.
    pub fn status_code(&self) -> (status: u16)
        ensures
            status == NOT_FOUND,
    {
        NOT_FOUND
    }

    /// The answer that reports this error.
    pub fn error_response(&self) -> (response: Response)
        ensures
            response@ == error_response(self@),
    {
        Response { status: self.status_code(), content_type_json: false, body: self.to_json() }
    }
}

/// Turns the outcome of a lookup into its answer.
pub fn respond_to_outcome(outcome: Result<Record, NotFound>) -> (response: Response)
    ensures
        response@ == match outcome {
            Ok(record) => record_response(OK, record@),
            Err(e) => error_response(e@),
        },
{
    match outcome {
        Ok(record) => record.respond(),
        Err(e) => e.error_response(),
    }
}

/// Creates `record`: it joins the end of the store, and the answer carries it.
pub fn create_record(store: &mut Store, record: Record) -> (response: Response)
    ensures
        final(store)@ == after_create(old(store)@, record@),
        response@ == record_response(CREATED, record@),
{
    let response = record.respond_with(CREATED);
    store.create(record);
    response
}

/// Lists every record of the store, in collection order.
pub fn list_records(store: &Store) -> (response: Response)
    ensures
        response@ == list_response(store@),
{
    Response { status: OK, content_type_json: true, body: list_to_json(store.list()) }
}

/// Fetches the first record that carries `id`.
pub fn get_record(store: &Store, id: u32) -> (response: Response)
    ensures
        response@ == get_response(store@, id),
{
    respond_to_outcome(store.get(id))
}

/// Replaces the first record that carries `id` by `record`; the answer
/// carries `record`. Where no record carries `id` the store stays as it was.
pub fn update_record(store: &mut Store, id: u32, record: Record) -> (response: Response)
    ensures
        final(store)@ == after_update(old(store)@, id, record@),
        response@ == update_response(old(store)@, id, record@),
{
    respond_to_outcome(store.update(id, record))
}

/// Removes the first record that carries `id`; the answer carries it. Where
/// no record carries `id` the store stays as it was.
pub fn delete_record(store: &mut Store, id: u32) -> (response: Response)
    ensures
        final(store)@ == after_delete(old(store)@, id),
        response@ == delete_response(old(store)@, id),
{
    respond_to_outcome(store.delete(id))
}

} // verus!
