//! Following a short key to its destination.
//!
//! The service asks the store for the first record filed under the key and
//! sends the client on to that record's site. Where there is no such record,
//! or the store cannot say, the client is sent to the root of the service
//! instead: a client cannot tell the one from the other.

use vstd::prelude::*;
use vstd::string::*;
use crate::create::insert_request_for;
use crate::record::UrlView;
use crate::store::{collection_name, database_name, key_field, FindOne, FindOneView,
    LookupOutcome, LookupOutcomeView};

verus! {

/// Where a client goes when its key leads nowhere: the root of the service.
pub open spec fn root_target() -> Seq<char> {
    "/"@
}

/// Where a client is sent for each outcome of looking its key up.
pub open spec fn redirect_target(outcome: LookupOutcomeView) -> Seq<char> {
    match outcome {
        LookupOutcomeView::Found(url) => url.site,
        LookupOutcomeView::Missing => root_target(),
        LookupOutcomeView::Failed => root_target(),
    }
}

/// What is asked of the store for `short_key`.
pub open spec fn find_request_for(short_key: Seq<char>) -> FindOneView {
    FindOneView {
        database: database_name(),
        collection: collection_name(),
        field: key_field(),
        value: short_key,
    }
}

/// What to ask of the store for a short key: the first record of the
/// service's one collection whose key is exactly `short_key`.
pub fn find_request(short_key: &str) -> (request: FindOne)
    ensures
        request@ == find_request_for(short_key@),
{
    FindOne {
        database: String::from_str("UrlsDB"),
        collection: String::from_str("UrlsCollection"),
        field: String::from_str("short_key"),
        value: String::from_str(short_key),
    }
}

/// Where to send the client once the store has said how the lookup went.
///
/// A record that was found sends the client to its site, as it is written in
/// the record. Anything else sends the client to the root.
pub fn get_url(outcome: LookupOutcome) -> (target: String)
    ensures
        target@ == redirect_target(outcome@),
{
    match outcome {
        LookupOutcome::Found(url) => url.site,
        _ => String::from_str("/"),
    }
}

/// Asking twice for the same key asks the store the same question, and two
/// lookups that come upon a record with the same site send the client to the
/// same place. So for as long as the record under a key stays as it is, every
/// request for that key is answered alike.
pub proof fn lemma_resolution_is_repeatable(
    short_key: Seq<char>,
    again: Seq<char>,
    first: UrlView,
    second: UrlView,
)
    requires
        short_key == again,
        first.site == second.site,
    ensures
        find_request_for(short_key) == find_request_for(again),
        redirect_target(LookupOutcomeView::Found(first)) == redirect_target(
            LookupOutcomeView::Found(second),
        ),
{
}

/// A record resolves to the site with which it was created: when the store
/// comes upon what it was asked to file, with whatever identifier it gave
/// the record, the client is sent to the site that the record's author wrote.
pub proof fn lemma_created_record_resolves(data: UrlView, found: UrlView)
    requires
        found.site == insert_request_for(data).document.site,
        found.short_key == insert_request_for(data).document.short_key,
    ensures
        find_request_for(data.short_key).value == found.short_key,
        find_request_for(data.short_key).database == insert_request_for(data).database,
        find_request_for(data.short_key).collection == insert_request_for(data).collection,
        redirect_target(LookupOutcomeView::Found(found)) == data.site,
{
}

/// A key that the store does not know and a store that cannot answer look the
/// same from outside: both send the client to the root.
pub proof fn lemma_missing_and_failed_alike()
    ensures
        redirect_target(LookupOutcomeView::Missing) == root_target(),
        redirect_target(LookupOutcomeView::Failed) == redirect_target(LookupOutcomeView::Missing),
{
}

/// Of two records filed under one key with different sites, the client is
/// sent to the site of exactly one: the one that the store came upon.
pub proof fn lemma_shared_key_resolves_to_one(first: UrlView, second: UrlView, found: UrlView)
    requires
        first.short_key == second.short_key,
        first.site != second.site,
        found == first || found == second,
    ensures
        redirect_target(LookupOutcomeView::Found(found)) == found.site,
        (redirect_target(LookupOutcomeView::Found(found)) == first.site) != (redirect_target(
            LookupOutcomeView::Found(found),
        ) == second.site),
{
}

} // verus!
