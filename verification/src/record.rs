//! The stored entity and the one error that a lookup can raise.

use vstd::prelude::*;

verus! {

/// What a record is, mathematically: an id and the characters of an author's name.
pub struct RecordView {
    pub id: u32,
    pub author: Seq<char>,
}

/// A stored record. The id is supplied by the caller and need not be unique.
#[derive(Debug, PartialEq, Eq)]
pub struct Record {
    pub id: u32,
    pub author: String,
}

impl View for Record {
    type V = RecordView;

    open spec fn view(&self) -> RecordView {
        RecordView { id: self.id, author: self.author@ }
    }
}

impl DeepView for Record {
    type V = RecordView;

    open spec fn deep_view(&self) -> RecordView {
        self@
    }
}

impl Clone for Record {
    fn clone(&self) -> (copy: Record)
        ensures
            copy@ == self@,
    {
        Record { id: self.id, author: self.author.clone() }
    }
}

/// The text carried by every `NotFound`.
pub open spec fn not_found_text() -> Seq<char> {
    "record not found"@
}

/// What a `NotFound` is, mathematically: the id that was asked for and a message.
pub struct NotFoundView {
    pub id: u32,
    pub message: Seq<char>,
}

/// The error of a lookup by id that matched no record.
#[derive(Debug, PartialEq, Eq)]
pub struct NotFound {
    pub id: u32,
    pub message: String,
}

impl View for NotFound {
    type V = NotFoundView;

    open spec fn view(&self) -> NotFoundView {
        NotFoundView { id: self.id, message: self.message@ }
    }
}

/// The value of the error raised when `id` matches no record.
pub open spec fn missing(id: u32) -> NotFoundView {
    NotFoundView { id, message: not_found_text() }
}

impl NotFound {
    /// The error for a lookup of `id` that matched nothing.
    pub fn for_id(id: u32) -> (e: NotFound)
        ensures
            e@ == missing(id),
    {
        NotFound { id, message: String::from_str("record not found") }
    }
}

} // verus!
