//! Creating a record.
//!
//! A client hands in a site and the key that it chose for it. The service has
//! the two filed as they stand, leaves the identifier to the store, and
//! answers with the identifier under which the store filed the record, or
//! with one and the same refusal whatever went wrong.

use vstd::prelude::*;
use vstd::string::*;
use crate::oid::lower_hex;
use crate::record::{Url, UrlView};
use crate::store::{collection_name, database_name, InsertOne, InsertOneView, InsertOutcome,
    InsertOutcomeView};

verus! {

/// The status code of an answer to a record that was filed.
pub const CREATED: u16 = 201;

/// The status code of an answer to a record that was not filed.
pub const BAD_REQUEST: u16 = 400;

/// The answer to a client that asked for a record to be created: a status
/// code, and the two members of the body.
#[derive(Clone, Debug, PartialEq, Eq)]
pub struct Reply {
    pub code: u16,
    pub status: String,
    pub message: String,
}

/// What a [`Reply`] holds, as mathematical values.
pub struct ReplyView {
    pub code: int,
    pub status: Seq<char>,
    pub message: Seq<char>,
}

impl View for Reply {
    type V = ReplyView;

    open spec fn view(&self) -> ReplyView {
        ReplyView { code: self.code as int, status: self.status@, message: self.message@ }
    }
}

/// The two members of an answer's body, each with its name, in the order in
/// which they are written.
pub open spec fn body_members(reply: ReplyView) -> Seq<(Seq<char>, Seq<char>)> {
    seq![("status"@, reply.status), ("message"@, reply.message)]
}

impl Reply {
    /// The members of the body, each as its name and its value.
    pub fn members(&self) -> (members: Vec<(String, String)>)
        ensures
            members.deep_view() == body_members(self@),
    {
        let mut members: Vec<(String, String)> = Vec::new();
        members.push((String::from_str("status"), self.status.clone()));
        members.push((String::from_str("message"), self.message.clone()));
        assert(members.deep_view() =~= body_members(self@));
        members
    }
}

/// The answer that tells of a record filed under `id`.
pub open spec fn success_reply(id: Seq<u8>) -> ReplyView {
    ReplyView {
        code: 201,
        status: "success"@,
        message: "Url ("@ + lower_hex(id) + ") created successfully"@,
    }
}

/// The one answer to every record that could not be filed.
pub open spec fn failure_reply() -> ReplyView {
    ReplyView { code: 400, status: "error"@, message: "Url could not be created"@ }
}

/// The answer that is owed for each outcome of filing a record.
pub open spec fn reply_for(outcome: InsertOutcomeView) -> ReplyView {
    match outcome {
        InsertOutcomeView::Stored(id) => success_reply(id),
        InsertOutcomeView::StoredUnnamed => failure_reply(),
        InsertOutcomeView::Failed => failure_reply(),
    }
}

/// The record that is filed for what a client handed in: its site and its
/// key, and no identifier.
pub open spec fn new_record(data: UrlView) -> UrlView {
    UrlView { id: None, site: data.site, short_key: data.short_key }
}

/// What is asked of the store for the record `data`.
pub open spec fn insert_request_for(data: UrlView) -> InsertOneView {
    InsertOneView {
        database: database_name(),
        collection: collection_name(),
        document: new_record(data),
    }
}

/// What to ask of the store for a record that a client handed in: to file
/// its site and its key in the service's one collection. Neither is changed
/// or checked. The identifier is the store's to give: one that the client
/// sent along is not handed on.
pub fn insert_request(data: Url) -> (request: InsertOne)
    ensures
        request@ == insert_request_for(data@),
{
    InsertOne {
        database: String::from_str("UrlsDB"),
        collection: String::from_str("UrlsCollection"),
        document: Url { id: None, site: data.site, short_key: data.short_key },
    }
}

/// What to answer once the store has said how filing the record went.
///
/// A record filed under an identifier is answered with `201` and a message
/// that holds the identifier in hexadecimal. Every other outcome is answered
/// with `400` and the same message, which gives no reason.
pub fn create_url(outcome: InsertOutcome) -> (reply: Reply)
    ensures
        reply@ == reply_for(outcome@),
{
    match outcome {
        InsertOutcome::Stored(id) => {
            let mut message = String::from_str("Url (");
            let hex = id.to_hex();
            message.append(hex.as_str());
            message.append(") created successfully");
            Reply { code: CREATED, status: String::from_str("success"), message }
        },
        _ => Reply {
            code: BAD_REQUEST,
            status: String::from_str("error"),
            message: String::from_str("Url could not be created"),
        },
    }
}

/// Whatever a client hands in, the record that the store is asked to file
/// has no identifier, so the one it ends up with is the store's and never the
/// client's. Its site and its key are the client's, to the letter.
pub proof fn lemma_identifier_is_left_to_the_store(data: UrlView)
    ensures
        insert_request_for(data).document.id is None,
        insert_request_for(data).document.site == data.site,
        insert_request_for(data).document.short_key == data.short_key,
{
}

/// A record is answered with `201` exactly when the store filed it under an
/// identifier, and with `400` otherwise. No outcome is left unanswered, and
/// what went wrong does not show in the answer.
pub proof fn lemma_created_or_refused(outcome: InsertOutcomeView)
    ensures
        reply_for(outcome).code == 201 <==> outcome is Stored,
        reply_for(outcome).code == 400 <==> !(outcome is Stored),
        !(outcome is Stored) ==> reply_for(outcome) == failure_reply(),
{
}

} // verus!
