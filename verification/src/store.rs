//! What passes between the service and its document store.
//!
//! The service never touches the store itself. It says what it wants done, as
//! an [`InsertOne`] or a [`FindOne`], and is told how that went, as an
//! [`InsertOutcome`] or a [`LookupOutcome`].

use vstd::prelude::*;
use crate::oid::{bson_object_id, reported_object_id};
use crate::record::{RecordId, Url, UrlView};

verus! {

/// The name of the database that holds the records.
pub open spec fn database_name() -> Seq<char> {
    "UrlsDB"@
}

/// The name of the one collection of records.
pub open spec fn collection_name() -> Seq<char> {
    "UrlsCollection"@
}

/// The name of the field by which records are looked up.
pub open spec fn key_field() -> Seq<char> {
    "short_key"@
}

/// A request to file one record.
#[derive(Clone, Debug, PartialEq, Eq)]
pub struct InsertOne {
    pub database: String,
    pub collection: String,
    pub document: Url,
}

/// What an [`InsertOne`] holds, as mathematical values.
pub struct InsertOneView {
    pub database: Seq<char>,
    pub collection: Seq<char>,
    pub document: UrlView,
}

impl View for InsertOne {
    type V = InsertOneView;

    open spec fn view(&self) -> InsertOneView {
        InsertOneView {
            database: self.database@,
            collection: self.collection@,
            document: self.document@,
        }
    }
}

/// A request for the first record in which `field` holds exactly `value`.
#[derive(Clone, Debug, PartialEq, Eq)]
pub struct FindOne {
    pub database: String,
    pub collection: String,
    pub field: String,
    pub value: String,
}

/// What a [`FindOne`] holds, as mathematical values.
pub struct FindOneView {
    pub database: Seq<char>,
    pub collection: Seq<char>,
    pub field: Seq<char>,
    pub value: Seq<char>,
}

impl View for FindOne {
    type V = FindOneView;

    open spec fn view(&self) -> FindOneView {
        FindOneView {
            database: self.database@,
            collection: self.collection@,
            field: self.field@,
            value: self.value@,
        }
    }
}

/// How an [`InsertOne`] went.
#[derive(Clone, Copy, Debug, PartialEq, Eq)]
pub enum InsertOutcome {
    /// The store filed the record under this identifier.
    Stored(RecordId),
    /// The store filed the record and named it by something that is not an
    /// identifier of the usual twelve bytes.
    StoredUnnamed,
    /// The store did not file the record, for whatever reason.
    Failed,
}

/// The outcome of a filing that the store accepted, given the identifier
/// that the record's name holds, if it holds one.
pub open spec fn accepted_outcome(id: Option<Seq<u8>>) -> InsertOutcomeView {
    match id {
        Some(id) => InsertOutcomeView::Stored(id),
        None => InsertOutcomeView::StoredUnnamed,
    }
}

impl InsertOutcome {
    /// The outcome of a filing that the store accepted, from the name that its
    /// driver reported for the record: filed under the identifier that the
    /// name holds, or filed unnamed where it holds none.
    pub fn of_inserted_id(name: &mongodb::bson::Bson) -> (outcome: InsertOutcome)
        ensures
            outcome@ == accepted_outcome(reported_object_id(*name)),
    {
        InsertOutcome::of_object_id(bson_object_id(name))
    }

    /// The outcome of a filing that the store accepted, from the identifier
    /// that was read out of the record's name, if there was one.
    pub fn of_object_id(id: Option<RecordId>) -> (outcome: InsertOutcome)
        ensures
            id is Some ==> outcome == InsertOutcome::Stored(id->0),
            id is None ==> outcome == InsertOutcome::StoredUnnamed,
    {
        match id {
            Some(id) => InsertOutcome::Stored(id),
            None => InsertOutcome::StoredUnnamed,
        }
    }
}

/// What an [`InsertOutcome`] holds, as mathematical values.
pub enum InsertOutcomeView {
    Stored(Seq<u8>),
    StoredUnnamed,
    Failed,
}

impl View for InsertOutcome {
    type V = InsertOutcomeView;

    open spec fn view(&self) -> InsertOutcomeView {
        match *self {
            InsertOutcome::Stored(id) => InsertOutcomeView::Stored(id@),
            InsertOutcome::StoredUnnamed => InsertOutcomeView::StoredUnnamed,
            InsertOutcome::Failed => InsertOutcomeView::Failed,
        }
    }
}

/// How a [`FindOne`] went.
#[derive(Clone, Debug, PartialEq, Eq)]
pub enum LookupOutcome {
    /// The store holds a matching record, and this is the first it came upon.
    Found(Url),
    /// The store holds no matching record.
    Missing,
    /// The store could not be asked, or could not answer.
    Failed,
}

/// What a [`LookupOutcome`] holds, as mathematical values.
pub enum LookupOutcomeView {
    Found(UrlView),
    Missing,
    Failed,
}

impl View for LookupOutcome {
    type V = LookupOutcomeView;

    open spec fn view(&self) -> LookupOutcomeView {
        match *self {
            LookupOutcome::Found(url) => LookupOutcomeView::Found(url@),
            LookupOutcome::Missing => LookupOutcomeView::Missing,
            LookupOutcome::Failed => LookupOutcomeView::Failed,
        }
    }
}

} // verus!
