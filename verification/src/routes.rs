//! How requests find their handler.
//!
//! All handlers are mounted at the root, so they share one space of paths. A
//! request that several of them could take goes to the one of lowest rank;
//! the handler that follows short keys takes any path of one segment, and so
//! has to come last.

use vstd::prelude::*;
use vstd::string::*;

verus! {

/// The parts of the service that take requests.
#[derive(Clone, Copy, Debug, PartialEq, Eq, Structural)]
pub enum Handler {
    /// Serves a page of the site, asked for by name.
    ServeHomePage,
    /// Follows a short key.
    GetUrl,
    /// Creates a record.
    CreateUrl,
    /// Serves the directory of static files as it lies on disk.
    StaticFiles,
}

/// One handler, where it is mounted, and its rank among the others.
#[derive(Clone, Debug, PartialEq, Eq)]
pub struct Mount {
    pub base: String,
    pub handler: Handler,
    pub rank: isize,
}

/// What a [`Mount`] holds, as mathematical values.
pub struct MountView {
    pub base: Seq<char>,
    pub handler: Handler,
    pub rank: int,
}

impl View for Mount {
    type V = MountView;

    open spec fn view(&self) -> MountView {
        MountView { base: self.base@, handler: self.handler, rank: self.rank as int }
    }
}

/// The views of a list of mounts, in the same order.
pub open spec fn mounts_view(mounts: Seq<Mount>) -> Seq<MountView> {
    Seq::new(mounts.len(), |i: int| mounts[i]@)
}

/// The rank of the handler that follows short keys.
pub const SHORT_KEY_RANK: isize = 11;

/// The rank at which the directory of static files is served.
pub const STATIC_FILES_RANK: isize = 10;

/// The rank of the handler that serves pages by name: a path that is fixed in
/// part.
pub const HOME_PAGE_RANK: isize = -5;

/// The rank of the handler that creates records: a path that is fixed
/// throughout.
pub const CREATE_RANK: isize = -9;

/// The service's mounts, in the order in which they are made.
pub open spec fn mount_table() -> Seq<MountView> {
    seq![
        MountView { base: "/"@, handler: Handler::ServeHomePage, rank: -5 },
        MountView { base: "/"@, handler: Handler::GetUrl, rank: 11 },
        MountView { base: "/"@, handler: Handler::CreateUrl, rank: -9 },
        MountView { base: "/"@, handler: Handler::StaticFiles, rank: 10 },
    ]
}

/// The mounts that make up the service. The caller builds its server from
/// them: each handler at its base, with its rank.
pub fn rocket() -> (mounts: Vec<Mount>)
    ensures
        mounts_view(mounts@) == mount_table(),
{
    let mut mounts: Vec<Mount> = Vec::new();
    mounts.push(
        Mount { base: String::from_str("/"), handler: Handler::ServeHomePage, rank: HOME_PAGE_RANK },
    );
    mounts.push(
        Mount { base: String::from_str("/"), handler: Handler::GetUrl, rank: SHORT_KEY_RANK },
    );
    mounts.push(
        Mount { base: String::from_str("/"), handler: Handler::CreateUrl, rank: CREATE_RANK },
    );
    mounts.push(
        Mount { base: String::from_str("/"), handler: Handler::StaticFiles, rank: STATIC_FILES_RANK },
    );
    assert(mounts_view(mounts@) =~= mount_table());
    mounts
}

/// The handler that follows short keys is tried after every other: each of
/// the others has a rank below its own. So a path that names a page or a
/// static file is never taken for a key.
pub proof fn lemma_short_keys_come_last()
    ensures
        forall|i: int, j: int|
            0 <= i < mount_table().len() && 0 <= j < mount_table().len()
                && mount_table()[i].handler == Handler::GetUrl
                && mount_table()[j].handler != Handler::GetUrl
                ==> (#[trigger] mount_table()[j]).rank < (#[trigger] mount_table()[i]).rank,
{
}

/// Every handler is mounted, and none of them twice.
pub proof fn lemma_each_handler_mounted_once(handler: Handler)
    ensures
        exists|i: int|
            0 <= i < mount_table().len() && (#[trigger] mount_table()[i]).handler == handler,
        forall|i: int, j: int|
            0 <= i < mount_table().len() && 0 <= j < mount_table().len()
                && (#[trigger] mount_table()[i]).handler == (#[trigger] mount_table()[j]).handler
                ==> i == j,
{
    match handler {
        Handler::ServeHomePage => assert(mount_table()[0].handler == handler),
        Handler::GetUrl => assert(mount_table()[1].handler == handler),
        Handler::CreateUrl => assert(mount_table()[2].handler == handler),
        Handler::StaticFiles => assert(mount_table()[3].handler == handler),
    }
}

} // verus!
