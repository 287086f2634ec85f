//! A frozen picture of everything a request can learn from outside.
//!
//! The engine decides one step at a time, on what it is told. To say what a
//! whole request comes to, its steps are played against a world that answers
//! every question the same way each time it is asked, and that changes only
//! through what the request itself deletes.

use crate::protocol::{ActionView, EventView, FileStat};
use vstd::prelude::*;

verus! {

/// The cache directory and the metadata store at one instant.
pub struct World {
    /// What inspecting a cache file reports.
    pub stat: spec_fn(Seq<char>) -> FileStat,
    /// What reading a cache file yields; `None` where reading fails.
    pub content: spec_fn(Seq<char>) -> Option<Seq<u8>>,
    /// Whether deleting a cache file succeeds.
    pub removable: spec_fn(Seq<char>) -> bool,
    /// The collection of an asset, where the store knows one.
    pub collection: spec_fn(Seq<char>) -> Option<Seq<char>>,
    /// The underlying asset of an asset, where the store knows one.
    pub underlying: spec_fn(Seq<char>) -> Option<Seq<char>>,
}

impl World {
    /// What the caller reports after carrying out `action` in this world.
    /// After an action that ends the request nothing is reported; the value
    /// given for it is never used.
    pub open spec fn report(self, action: ActionView) -> EventView {
        match action {
            ActionView::Stat { path } => EventView::Stat((self.stat)(path)),
            ActionView::Remove { path } => EventView::Removed((self.removable)(path)),
            ActionView::Read { path } => EventView::Content((self.content)(path)),
            ActionView::FindCollection { asset_id } => EventView::Collection(
                (self.collection)(asset_id),
            ),
            ActionView::FindUnderlying { asset_id } => EventView::Underlying(
                (self.underlying)(asset_id),
            ),
            ActionView::Fetch { .. } => EventView::Removed(false),
            ActionView::Reply { .. } => EventView::Removed(false),
        }
    }

    /// The world with the cache file `path` gone.
    pub open spec fn without(self, path: Seq<char>) -> World {
        World {
            stat: |p: Seq<char>|
                if p == path {
                    FileStat::Missing
                } else {
                    (self.stat)(p)
                },
            content: |p: Seq<char>|
                if p == path {
                    None
                } else {
                    (self.content)(p)
                },
            removable: |p: Seq<char>| p != path && (self.removable)(p),
            ..self
        }
    }

    /// The world as `action` leaves it: a deletion that succeeds takes the
    /// file away, everything else leaves the world as it was.
    pub open spec fn after(self, action: ActionView) -> World {
        match action {
            ActionView::Remove { path } => if (self.removable)(path) {
                self.without(path)
            } else {
                self
            },
            _ => self,
        }
    }
}

} // verus!
