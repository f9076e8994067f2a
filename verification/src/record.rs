//! The one entity of the service: a destination filed under a short key.

use vstd::prelude::*;
use crate::oid::{lower_hex, object_id_hex};

verus! {

/// The identifier that the document store assigns to a record: twelve bytes.
#[derive(Clone, Copy, Debug, PartialEq, Eq)]
pub struct RecordId {
    pub bytes: [u8; 12],
}

impl View for RecordId {
    type V = Seq<u8>;

    open spec fn view(&self) -> Seq<u8> {
        self.bytes@
    }
}

impl RecordId {
    /// The identifier as it is shown to clients: twenty-four hexadecimal
    /// digits in lower case.
    pub fn to_hex(&self) -> (text: String)
        ensures
            text@ == lower_hex(self@),
    {
        object_id_hex(&self.bytes)
    }
}

/// A record as the store and the clients see it.
///
/// `id` is absent until the store has filed the record. Neither `site` nor
/// `short_key` is checked in any way: a key may be taken already, and a site
/// need not be a well-formed address.
#[derive(Clone, Debug, PartialEq, Eq)]
pub struct Url {
    pub id: Option<RecordId>,
    pub site: String,
    pub short_key: String,
}

/// What a [`Url`] holds, as mathematical values.
pub struct UrlView {
    pub id: Option<Seq<u8>>,
    pub site: Seq<char>,
    pub short_key: Seq<char>,
}

impl View for Url {
    type V = UrlView;

    open spec fn view(&self) -> UrlView {
        UrlView {
            id: match self.id {
                Some(id) => Some(id@),
                None => None,
            },
            site: self.site@,
            short_key: self.short_key@,
        }
    }
}

impl Url {
    /// A record that has not been filed yet.
    pub fn new(site: String, short_key: String) -> (url: Url)
        ensures
            url@ == (UrlView { id: None, site: site@, short_key: short_key@ }),
    {
        Url { id: None, site, short_key }
    }
}

} // verus!
