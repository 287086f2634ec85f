//! The read: hand out an icon's content, from the asset's own cache file or,
//! failing that, from its collection's.
//!
//! A read never triggers a fetch and never follows the underlying asset; it
//! serves what the cache holds.

use crate::path::{cache_file_name, icon_file_name, icon_path, resolve_icon_path};
use crate::probe::{classify, probe, Probe};
use crate::get_script::{get_run, get_script, lemma_get_follows_script};
use crate::protocol::{reply, Action, ActionView, Event, EventView, Hop, IconResponse, Lookup};
use crate::request::AssetIconRequest;
use crate::respond::{content_response, respond};
use crate::status::IconStatus;
use crate::world::World;
use vstd::prelude::*;

verus! {

/// What the state of a candidate's cache entry means for a read.
#[derive(Clone, Copy, Debug, PartialEq, Eq, Structural)]
pub enum ReadVerdict {
    /// The entry holds an icon: read it.
    Read,
    /// There is nothing to serve.
    Missing,
    /// The entry is in a state that should not occur.
    Broken,
}

/// The verdict of a read on a cache entry. A marker is never served.
pub open spec fn read_verdict(entry: Probe) -> ReadVerdict {
    match entry {
        Probe::Present => ReadVerdict::Read,
        Probe::Undated => ReadVerdict::Broken,
        Probe::Absent => ReadVerdict::Missing,
        Probe::Unreadable => ReadVerdict::Missing,
        Probe::NegativeCached { .. } => ReadVerdict::Missing,
    }
}

/// Decides what a read does with a candidate, from the state of its entry.
pub fn candidate_read_verdict(entry: Probe) -> (v: ReadVerdict)
    ensures
        v == read_verdict(entry),
{
    match entry {
        Probe::Present => ReadVerdict::Read,
        Probe::Undated => ReadVerdict::Broken,
        _ => ReadVerdict::Missing,
    }
}

/// What a read is waiting for.
#[derive(Clone, Copy, Debug, PartialEq, Eq, Structural)]
pub enum GetStage {
    /// The state of the candidate's cache file.
    Stat(Hop),
    /// The bytes of the candidate's cache file.
    Content(Hop),
    /// The collection of the asset.
    Collection,
    /// Nothing: the request is over.
    Done,
}

/// A read in progress.
#[derive(Debug)]
pub struct GetFlow {
    asset_id: String,
    token: Option<String>,
    own_path: String,
    stage: GetStage,
    candidate_path: String,
}

/// The mathematical content of a [`GetFlow`].
pub struct GetState {
    /// The asset the client asked for.
    pub asset_id: Seq<char>,
    /// The fingerprint the client sent, if any.
    pub token: Option<Seq<char>>,
    /// The cache file of the asset's own icon.
    pub own_path: Seq<char>,
    /// What the read is waiting for.
    pub stage: GetStage,
    /// The cache file of the candidate under examination.
    pub candidate_path: Seq<char>,
}

impl View for GetFlow {
    type V = GetState;

    closed spec fn view(&self) -> GetState {
        GetState {
            asset_id: self.asset_id@,
            token: match self.token {
                Some(t) => Some(t@),
                None => None,
            },
            own_path: self.own_path@,
            stage: self.stage,
            candidate_path: self.candidate_path@,
        }
    }
}

impl GetState {
    /// What holds of every read from its opening on: the own path is the
    /// cache file of the asset that was asked for.
    pub open spec fn wf(self) -> bool {
        self.own_path == cache_file_name(self.asset_id)
    }

    /// The same read, waiting for something else.
    pub open spec fn at(self, stage: GetStage) -> GetState {
        GetState { stage, ..self }
    }

    /// What a read does when a candidate has nothing to serve: after the
    /// asset's own icon it turns to the collection, after that it gives up.
    pub open spec fn on_missing(self, hop: Hop) -> (GetState, ActionView) {
        if hop == Hop::Own {
            (
                self.at(GetStage::Collection),
                ActionView::FindCollection { asset_id: self.asset_id },
            )
        } else {
            (self.at(GetStage::Done), reply(IconStatus::NotFound))
        }
    }

    /// The step taken once the state of the candidate's cache file is known.
    pub open spec fn on_stat(self, hop: Hop, entry: Probe) -> (GetState, ActionView) {
        match read_verdict(entry) {
            ReadVerdict::Read => (
                self.at(GetStage::Content(hop)),
                ActionView::Read { path: self.candidate_path },
            ),
            ReadVerdict::Broken => (self.at(GetStage::Done), reply(IconStatus::InternalError)),
            ReadVerdict::Missing => self.on_missing(hop),
        }
    }

    /// The step taken once the candidate's cache file was read, or could not
    /// be read.
    pub open spec fn on_content(self, hop: Hop, content: Option<Seq<u8>>) -> (
        GetState,
        ActionView,
    ) {
        let response = content_response(content, self.token);
        if response.status == IconStatus::NotFound {
            self.on_missing(hop)
        } else {
            (self.at(GetStage::Done), ActionView::Reply { response })
        }
    }

    /// The step taken once the asset's collection is known. A collection path
    /// equal to the asset's own path offers nothing new.
    pub open spec fn on_collection(self, collection: Option<Seq<char>>) -> (GetState, ActionView) {
        let path = icon_path(self.asset_id, true, collection);
        if path != self.own_path {
            (
                GetState { stage: GetStage::Stat(Hop::Collection), candidate_path: path, ..self },
                ActionView::Stat { path },
            )
        } else {
            (self.at(GetStage::Done), reply(IconStatus::NotFound))
        }
    }

    /// The transition of a read: from what it waits for and what is reported,
    /// to what it waits for next and what is to be done. A report that does
    /// not answer what the read waits for ends it with an internal error.
    pub open spec fn step(self, event: EventView) -> (GetState, ActionView) {
        match (self.stage, event) {
            (GetStage::Stat(hop), EventView::Stat(stat)) => self.on_stat(hop, classify(stat)),
            (GetStage::Content(hop), EventView::Content(content)) => self.on_content(hop, content),
            (GetStage::Collection, EventView::Collection(c)) => self.on_collection(c),
            _ => (self.at(GetStage::Done), reply(IconStatus::InternalError)),
        }
    }
}

/// The state in which a read of `asset_id` begins: waiting for the state of
/// the asset's own cache file.
pub open spec fn get_start(asset_id: Seq<char>, token: Option<Seq<char>>) -> GetState {
    GetState {
        asset_id,
        token,
        own_path: cache_file_name(asset_id),
        stage: GetStage::Stat(Hop::Own),
        candidate_path: cache_file_name(asset_id),
    }
}

/// The first action of a read: inspect the asset's own cache file.
pub open spec fn get_first_action(asset_id: Seq<char>) -> ActionView {
    ActionView::Stat { path: cache_file_name(asset_id) }
}

/// Opens a read. Returns the flow that will decide it, and the first thing to
/// do.
pub fn get_icon(request: &AssetIconRequest) -> (opened: (GetFlow, Action))
    ensures
        opened.0@ == get_start(request.asset_id@, request.token()),
        opened.1@ == get_first_action(request.asset_id@),
        opened.0@.wf(),
        forall|world: World| #[trigger]
            get_run(opened.0@, opened.1@, world, 5) == get_script(
                request.asset_id@,
                request.token(),
                world,
            ),
{
    proof {
        assert forall|world: World| #[trigger]
            get_run(
                get_start(request.asset_id@, request.token()),
                get_first_action(request.asset_id@),
                world,
                5,
            ) == get_script(request.asset_id@, request.token(), world) by {
            lemma_get_follows_script(request.asset_id@, request.token(), world);
        }
    }
    let own_path = icon_file_name(request.asset_id.as_str());
    let token = match &request.match_header {
        Some(t) => Some(t.clone()),
        None => None,
    };
    let flow = GetFlow {
        asset_id: request.asset_id.clone(),
        token,
        own_path: own_path.clone(),
        stage: GetStage::Stat(Hop::Own),
        candidate_path: own_path.clone(),
    };
    (flow, Action::Stat { path: own_path })
}

impl GetFlow {
    /// Whether the read is over.
    pub fn is_done(&self) -> (done: bool)
        ensures
            done == (self@.stage == GetStage::Done),
    {
        match self.stage {
            GetStage::Done => true,
            _ => false,
        }
    }

    fn finish(&mut self, status: IconStatus) -> (action: Action)
        ensures
            final(self)@ == old(self)@.at(GetStage::Done),
            action@ == reply(status),
    {
        self.stage = GetStage::Done;
        Action::Reply { response: IconResponse::bare(status) }
    }

    fn on_missing(&mut self, hop: Hop) -> (action: Action)
        ensures
            (final(self)@, action@) == old(self)@.on_missing(hop),
    {
        match hop {
            Hop::Own => {
                self.stage = GetStage::Collection;
                Action::FindCollection { asset_id: self.asset_id.clone() }
            },
            _ => self.finish(IconStatus::NotFound),
        }
    }

    fn on_stat(&mut self, hop: Hop, entry: Probe) -> (action: Action)
        ensures
            (final(self)@, action@) == old(self)@.on_stat(hop, entry),
    {
        match candidate_read_verdict(entry) {
            ReadVerdict::Read => {
                self.stage = GetStage::Content(hop);
                Action::Read { path: self.candidate_path.clone() }
            },
            ReadVerdict::Broken => self.finish(IconStatus::InternalError),
            ReadVerdict::Missing => self.on_missing(hop),
        }
    }

    fn on_content(&mut self, hop: Hop, content: Option<Vec<u8>>) -> (action: Action)
        ensures
            (final(self)@, action@) == old(self)@.on_content(
                hop,
                match content {
                    Some(c) => Some(c@),
                    None => None,
                },
            ),
    {
        let response = respond(content, &self.token);
        match response.status {
            IconStatus::NotFound => self.on_missing(hop),
            _ => {
                self.stage = GetStage::Done;
                Action::Reply { response }
            },
        }
    }

    fn on_collection(&mut self, collection: &Lookup) -> (action: Action)
        ensures
            (final(self)@, action@) == old(self)@.on_collection(collection.relation()),
    {
        let path = resolve_icon_path(self.asset_id.as_str(), true, collection);
        if path != self.own_path {
            self.stage = GetStage::Stat(Hop::Collection);
            self.candidate_path = path.clone();
            Action::Stat { path }
        } else {
            self.finish(IconStatus::NotFound)
        }
    }

    /// Takes the report of what the last action led to and says what to do
    /// next.
    pub fn advance(&mut self, event: Event) -> (action: Action)
        ensures
            (final(self)@, action@) == old(self)@.step(event@),
            action@ is Reply <==> final(self)@.stage == GetStage::Done,
            old(self)@.wf() ==> final(self)@.wf(),
    {
        match (self.stage, event) {
            (GetStage::Stat(hop), Event::Stat(stat)) => self.on_stat(hop, probe(stat)),
            (GetStage::Content(hop), Event::Content(content)) => self.on_content(hop, content),
            (GetStage::Collection, Event::Collection(c)) => self.on_collection(&c),
            _ => self.finish(IconStatus::InternalError),
        }
    }
}

} // verus!
