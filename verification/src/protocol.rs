//! The values that pass between the engine and the code that does its I/O.
//!
//! The engine never touches the disk, the metadata store or the remote
//! sources. It hands out an [`Action`], the caller performs it and reports
//! what happened as an [`Event`].

use crate::status::IconStatus;
use vstd::prelude::*;

verus! {

/// What the file system reports about one path.
#[derive(Clone, Copy, Debug, PartialEq, Eq, Structural)]
pub enum FileStat {
    /// There is no file at the path.
    Missing,
    /// The path could not be inspected for a reason other than absence.
    Unreadable,
    /// A file exists. `age_secs` is the time since its last modification, or
    /// `None` where that time could not be determined.
    Exists { len: u64, age_secs: Option<u64> },
}

/// The answer of the metadata store to a question about an asset's relation
/// (its collection, or its underlying asset).
#[derive(Clone, Debug, PartialEq, Eq)]
pub enum Lookup {
    /// The related id.
    Known(String),
    /// The asset has no such relation.
    Unknown,
    /// The store failed to answer.
    Failed,
}

impl Lookup {
    /// The related id, if the store named one. A failed lookup counts as no
    /// relation.
    pub open spec fn relation(&self) -> Option<Seq<char>> {
        match self {
            Lookup::Known(id) => Some(id@),
            Lookup::Unknown => None,
            Lookup::Failed => None,
        }
    }
}

/// The answer to a request: a status and, for served content, the
/// fingerprint header and the bytes.
#[derive(Clone, Debug, PartialEq, Eq)]
pub struct IconResponse {
    pub status: IconStatus,
    pub fingerprint: Option<String>,
    pub body: Option<Vec<u8>>,
}

/// The mathematical content of an [`IconResponse`].
pub struct ResponseView {
    pub status: IconStatus,
    pub fingerprint: Option<Seq<char>>,
    pub body: Option<Seq<u8>>,
}

impl View for IconResponse {
    type V = ResponseView;

    open spec fn view(&self) -> ResponseView {
        ResponseView {
            status: self.status,
            fingerprint: match self.fingerprint {
                Some(f) => Some(f@),
                None => None,
            },
            body: match self.body {
                Some(b) => Some(b@),
                None => None,
            },
        }
    }
}

/// A response that carries a status and nothing else.
pub open spec fn bare(status: IconStatus) -> ResponseView {
    ResponseView { status, fingerprint: None, body: None }
}

impl IconResponse {
    /// A response that carries a status and nothing else.
    pub fn bare(status: IconStatus) -> (r: IconResponse)
        ensures
            r@ == bare(status),
    {
        IconResponse { status, fingerprint: None, body: None }
    }
}

/// One of the places an icon for an asset may come from.
#[derive(Clone, Copy, Debug, PartialEq, Eq, Structural)]
pub enum Hop {
    /// The asset's own icon.
    Own,
    /// The icon shared by the asset's collection.
    Collection,
    /// The icon of the asset this one wraps or derives from.
    Underlying,
}

/// What the caller is asked to do next.
#[derive(Clone, Debug, PartialEq, Eq)]
pub enum Action {
    /// Inspect the cache file `path` and report a [`Event::Stat`].
    Stat { path: String },
    /// Delete the cache file `path` and report a [`Event::Removed`].
    Remove { path: String },
    /// Read the cache file `path` and report a [`Event::Content`].
    Read { path: String },
    /// Ask the metadata store for the collection of `asset_id` and report a
    /// [`Event::Collection`].
    FindCollection { asset_id: String },
    /// Ask the metadata store for the underlying asset of `asset_id` and
    /// report a [`Event::Underlying`].
    FindUnderlying { asset_id: String },
    /// Hand `asset_id` to the fetch coordinator, with `path` as the place to
    /// write the result, and answer the client with the coordinator's status.
    /// The request is over.
    Fetch { asset_id: String, path: String },
    /// Answer the client. The request is over.
    Reply { response: IconResponse },
}

/// The mathematical content of an [`Action`].
pub enum ActionView {
    Stat { path: Seq<char> },
    Remove { path: Seq<char> },
    Read { path: Seq<char> },
    FindCollection { asset_id: Seq<char> },
    FindUnderlying { asset_id: Seq<char> },
    Fetch { asset_id: Seq<char>, path: Seq<char> },
    Reply { response: ResponseView },
}

impl View for Action {
    type V = ActionView;

    open spec fn view(&self) -> ActionView {
        match self {
            Action::Stat { path } => ActionView::Stat { path: path@ },
            Action::Remove { path } => ActionView::Remove { path: path@ },
            Action::Read { path } => ActionView::Read { path: path@ },
            Action::FindCollection { asset_id } => ActionView::FindCollection {
                asset_id: asset_id@,
            },
            Action::FindUnderlying { asset_id } => ActionView::FindUnderlying {
                asset_id: asset_id@,
            },
            Action::Fetch { asset_id, path } => ActionView::Fetch {
                asset_id: asset_id@,
                path: path@,
            },
            Action::Reply { response } => ActionView::Reply { response: response@ },
        }
    }
}

/// The reply that ends a request with a status and nothing else.
pub open spec fn reply(status: IconStatus) -> ActionView {
    ActionView::Reply { response: bare(status) }
}

impl ActionView {
    /// Whether the action ends the request.
    pub open spec fn is_final(self) -> bool {
        self is Fetch || self is Reply
    }

    /// The status the client receives where the action ends the request. A
    /// triggered fetch is always answered with `Accepted`.
    pub open spec fn status(self) -> Option<IconStatus> {
        match self {
            ActionView::Fetch { .. } => Some(IconStatus::Accepted),
            ActionView::Reply { response } => Some(response.status),
            _ => None,
        }
    }
}

/// What the caller reports back after an [`Action`].
#[derive(Clone, Debug, PartialEq, Eq)]
pub enum Event {
    /// The outcome of inspecting a file.
    Stat(FileStat),
    /// Whether the file was deleted.
    Removed(bool),
    /// The bytes of the file, or `None` where reading failed.
    Content(Option<Vec<u8>>),
    /// The metadata store's answer about the collection.
    Collection(Lookup),
    /// The metadata store's answer about the underlying asset.
    Underlying(Lookup),
}

/// The mathematical content of an [`Event`].
pub enum EventView {
    Stat(FileStat),
    Removed(bool),
    Content(Option<Seq<u8>>),
    Collection(Option<Seq<char>>),
    Underlying(Option<Seq<char>>),
}

impl View for Event {
    type V = EventView;

    open spec fn view(&self) -> EventView {
        match self {
            Event::Stat(stat) => EventView::Stat(*stat),
            Event::Removed(done) => EventView::Removed(*done),
            Event::Content(bytes) => EventView::Content(
                match bytes {
                    Some(b) => Some(b@),
                    None => None,
                },
            ),
            Event::Collection(found) => EventView::Collection(found.relation()),
            Event::Underlying(found) => EventView::Underlying(found.relation()),
        }
    }
}

} // verus!
