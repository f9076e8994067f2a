//! The rules of a small URL-shortening service, apart from the network.
//!
//! The service keeps records that pair a short key with a destination in a
//! document store and answers three kinds of request: one that creates a
//! record, one that follows a short key to its destination, and one that
//! serves the pages of the site itself. Talking to the store, to the disk and
//! to clients is left to the caller; what is decided here is what to ask of
//! the store and what to answer once the store has spoken.

pub mod record;
pub mod oid;
pub mod store;
pub mod create;
pub mod resolve;
pub mod home;
pub mod routes;

pub use create::{create_url, insert_request, Reply};
pub use home::serve_home_page;
pub use record::{RecordId, Url};
pub use resolve::{find_request, get_url};
pub use routes::{rocket, Handler, Mount};
pub use store::{FindOne, InsertOne, InsertOutcome, LookupOutcome};
