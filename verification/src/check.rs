//! The existence check: is an icon there, and if not, should it be fetched?
//!
//! The candidates are consulted in a fixed order: the asset's own icon, the icon
//! of its collection, the icon of its underlying asset. The first one that
//! settles the request ends it; where none does, a fetch of the asset's own
//! icon is triggered.
//!
//! A forced refresh deletes what it finds cached before anything is fetched:
//! a marker at the asset's own path goes first, and the check then carries on
//! as if the path had been empty.

use crate::path::{cache_file_name, icon_file_name, icon_path, resolve_icon_path};
use crate::check_script::{check_run, check_script, lemma_check_follows_script};
use crate::probe::{classify, probe, retry_due, should_retry, Probe};
use crate::protocol::{reply, Action, ActionView, Event, EventView, Hop, IconResponse, Lookup};
use crate::request::AssetIconCheck;
use crate::status::IconStatus;
use crate::world::World;
use vstd::prelude::*;

verus! {

/// What the state of one candidate means for a check.
#[derive(Clone, Copy, Debug, PartialEq, Eq, Structural)]
pub enum Verdict {
    /// The icon is cached and can be used as it is.
    Serve,
    /// The asset is known to have no icon, for the time being.
    Missing,
    /// The entry is in a state that should not occur.
    Broken,
    /// Nothing is cached: fetch.
    Fetch,
    /// Delete what is cached, then fetch.
    Refresh,
}

/// The verdict on a candidate, from the state of its cache entry and the
/// request's refresh flag.
pub open spec fn verdict(entry: Probe, force_refresh: bool) -> Verdict {
    match entry {
        Probe::Absent => Verdict::Fetch,
        Probe::Unreadable => Verdict::Missing,
        Probe::Undated => Verdict::Broken,
        Probe::Present => if force_refresh {
            Verdict::Refresh
        } else {
            Verdict::Serve
        },
        Probe::NegativeCached { age_secs } => if retry_due(age_secs, force_refresh) {
            Verdict::Refresh
        } else {
            Verdict::Missing
        },
    }
}

/// Whether a fetch goes ahead after the attempt to delete the cached file. A
/// forced refresh insists on the deletion; a retry of an expired marker does
/// not.
pub open spec fn fetch_after_removal(removed: bool, force_refresh: bool) -> bool {
    removed || !force_refresh
}

/// Whether a check deletes the entry at the asset's own path before it turns
/// to the other candidates: a forced refresh does so with a marker.
pub open spec fn clears_marker(entry: Probe, force_refresh: bool) -> bool {
    force_refresh && entry is NegativeCached
}

/// Decides a cached icon: served as it is, or refreshed on demand.
pub fn present_verdict(force_refresh: bool) -> (v: Verdict)
    ensures
        v == verdict(Probe::Present, force_refresh),
{
    if force_refresh {
        Verdict::Refresh
    } else {
        Verdict::Serve
    }
}

/// Decides a negative-cache marker: looked up again where the staleness
/// policy says so, otherwise taken as proof of absence.
pub fn marker_verdict(age_secs: u64, force_refresh: bool) -> (v: Verdict)
    ensures
        v == verdict(Probe::NegativeCached { age_secs }, force_refresh),
{
    if should_retry(age_secs, force_refresh) {
        Verdict::Refresh
    } else {
        Verdict::Missing
    }
}

/// Decides one candidate from the state of its cache entry.
pub fn candidate_verdict(entry: Probe, force_refresh: bool) -> (v: Verdict)
    ensures
        v == verdict(entry, force_refresh),
{
    match entry {
        Probe::Absent => Verdict::Fetch,
        Probe::Unreadable => Verdict::Missing,
        Probe::Undated => Verdict::Broken,
        Probe::Present => present_verdict(force_refresh),
        Probe::NegativeCached { age_secs } => marker_verdict(age_secs, force_refresh),
    }
}

/// What a check is waiting for.
#[derive(Clone, Copy, Debug, PartialEq, Eq, Structural)]
pub enum CheckStage {
    /// The state of the candidate's cache file.
    Stat(Hop),
    /// The outcome of deleting the candidate's cache file.
    Removal,
    /// The outcome of deleting the marker at the asset's own path.
    Clearing,
    /// The collection of the asset.
    Collection,
    /// The underlying asset of the asset.
    Underlying,
    /// Nothing: the request is over.
    Done,
}

/// A check in progress.
#[derive(Debug)]
pub struct CheckFlow {
    asset_id: String,
    force_refresh: bool,
    own_path: String,
    stage: CheckStage,
    candidate_id: String,
    candidate_path: String,
}

/// The mathematical content of a [`CheckFlow`].
pub struct CheckState {
    /// The asset the client asked about.
    pub asset_id: Seq<char>,
    /// Whether the client forces a refresh.
    pub force_refresh: bool,
    /// The cache file of the asset's own icon.
    pub own_path: Seq<char>,
    /// What the check is waiting for.
    pub stage: CheckStage,
    /// The id a fetch for the candidate under examination would name.
    pub candidate_id: Seq<char>,
    /// The cache file of the candidate under examination.
    pub candidate_path: Seq<char>,
}

impl View for CheckFlow {
    type V = CheckState;

    closed spec fn view(&self) -> CheckState {
        CheckState {
            asset_id: self.asset_id@,
            force_refresh: self.force_refresh,
            own_path: self.own_path@,
            stage: self.stage,
            candidate_id: self.candidate_id@,
            candidate_path: self.candidate_path@,
        }
    }
}

impl CheckState {
    /// What holds of every check from its opening on: the own path is the
    /// cache file of the asset that was asked about.
    pub open spec fn wf(self) -> bool {
        self.own_path == cache_file_name(self.asset_id)
    }

    /// The same check, waiting for something else.
    pub open spec fn at(self, stage: CheckStage) -> CheckState {
        CheckState { stage, ..self }
    }

    /// The same check, turned to another candidate and waiting for the state
    /// of its cache file.
    pub open spec fn turn_to(self, hop: Hop, id: Seq<char>, path: Seq<char>) -> CheckState {
        CheckState { stage: CheckStage::Stat(hop), candidate_id: id, candidate_path: path, ..self }
    }

    /// The fetch of the candidate under examination.
    pub open spec fn fetch(self) -> ActionView {
        ActionView::Fetch { asset_id: self.candidate_id, path: self.candidate_path }
    }

    /// The step taken once the state of the candidate's cache file is known.
    pub open spec fn on_stat(self, hop: Hop, entry: Probe) -> (CheckState, ActionView) {
        if hop == Hop::Own && !entry.is_usable() {
            if clears_marker(entry, self.force_refresh) {
                (self.at(CheckStage::Clearing), ActionView::Remove { path: self.own_path })
            } else {
                (
                    self.at(CheckStage::Collection),
                    ActionView::FindCollection { asset_id: self.asset_id },
                )
            }
        } else {
            match verdict(entry, self.force_refresh) {
                Verdict::Serve => (self.at(CheckStage::Done), reply(IconStatus::Found)),
                Verdict::Broken => (self.at(CheckStage::Done), reply(IconStatus::InternalError)),
                Verdict::Fetch => (self.at(CheckStage::Done), self.fetch()),
                Verdict::Refresh => (
                    self.at(CheckStage::Removal),
                    ActionView::Remove { path: self.candidate_path },
                ),
                Verdict::Missing => if hop == Hop::Underlying {
                    (self.at(CheckStage::Done), reply(IconStatus::NotFound))
                } else {
                    (
                        self.at(CheckStage::Underlying),
                        ActionView::FindUnderlying { asset_id: self.asset_id },
                    )
                },
            }
        }
    }

    /// The step taken once the attempt to delete the candidate's file is over.
    pub open spec fn on_removal(self, removed: bool) -> (CheckState, ActionView) {
        if fetch_after_removal(removed, self.force_refresh) {
            (self.at(CheckStage::Done), self.fetch())
        } else {
            (self.at(CheckStage::Done), reply(IconStatus::InternalError))
        }
    }

    /// The step taken once the attempt to delete the marker at the asset's own
    /// path is over. With the marker gone the check turns to the collection;
    /// with the marker still there it fails.
    pub open spec fn on_clearing(self, removed: bool) -> (CheckState, ActionView) {
        if removed {
            (
                self.at(CheckStage::Collection),
                ActionView::FindCollection { asset_id: self.asset_id },
            )
        } else {
            (self.at(CheckStage::Done), reply(IconStatus::InternalError))
        }
    }

    /// The step taken once the asset's collection is known. A collection path
    /// equal to the asset's own path offers nothing new and is skipped.
    pub open spec fn on_collection(self, collection: Option<Seq<char>>) -> (CheckState, ActionView) {
        let path = icon_path(self.asset_id, true, collection);
        if path != self.own_path {
            (self.turn_to(Hop::Collection, self.asset_id, path), ActionView::Stat { path })
        } else {
            (
                self.at(CheckStage::Underlying),
                ActionView::FindUnderlying { asset_id: self.asset_id },
            )
        }
    }

    /// The step taken once the asset's underlying asset is known. Without one,
    /// the asset's own icon is fetched.
    pub open spec fn on_underlying(self, underlying: Option<Seq<char>>) -> (CheckState, ActionView) {
        match underlying {
            Some(id) => {
                let path = cache_file_name(id);
                (self.turn_to(Hop::Underlying, id, path), ActionView::Stat { path })
            },
            None => (
                self.at(CheckStage::Done),
                ActionView::Fetch { asset_id: self.asset_id, path: self.own_path },
            ),
        }
    }

    /// The transition of a check: from what it waits for and what is reported,
    /// to what it waits for next and what is to be done. A report that does
    /// not answer what the check waits for ends it with an internal error.
    pub open spec fn step(self, event: EventView) -> (CheckState, ActionView) {
        match (self.stage, event) {
            (CheckStage::Stat(hop), EventView::Stat(stat)) => self.on_stat(hop, classify(stat)),
            (CheckStage::Removal, EventView::Removed(removed)) => self.on_removal(removed),
            (CheckStage::Clearing, EventView::Removed(removed)) => self.on_clearing(removed),
            (CheckStage::Collection, EventView::Collection(c)) => self.on_collection(c),
            (CheckStage::Underlying, EventView::Underlying(u)) => self.on_underlying(u),
            _ => (self.at(CheckStage::Done), reply(IconStatus::InternalError)),
        }
    }
}

/// The state in which a check of `asset_id` begins: waiting for the state of
/// the asset's own cache file.
pub open spec fn check_start(asset_id: Seq<char>, force_refresh: bool) -> CheckState {
    CheckState {
        asset_id,
        force_refresh,
        own_path: cache_file_name(asset_id),
        stage: CheckStage::Stat(Hop::Own),
        candidate_id: asset_id,
        candidate_path: cache_file_name(asset_id),
    }
}

/// The first action of a check: inspect the asset's own cache file.
pub open spec fn check_first_action(asset_id: Seq<char>) -> ActionView {
    ActionView::Stat { path: cache_file_name(asset_id) }
}

/// Opens a check. Returns the flow that will decide it, and the first thing
/// to do.
pub fn check_icon(request: &AssetIconCheck) -> (opened: (CheckFlow, Action))
    ensures
        opened.0@ == check_start(request.asset_id@, request.forces_refresh()),
        opened.1@ == check_first_action(request.asset_id@),
        opened.0@.wf(),
        forall|world: World| #[trigger]
            check_run(opened.0@, opened.1@, world, 7) == check_script(
                request.asset_id@,
                request.forces_refresh(),
                world,
            ),
{
    proof {
        assert forall|world: World| #[trigger]
            check_run(
                check_start(request.asset_id@, request.forces_refresh()),
                check_first_action(request.asset_id@),
                world,
                7,
            ) == check_script(request.asset_id@, request.forces_refresh(), world) by {
            lemma_check_follows_script(request.asset_id@, request.forces_refresh(), world);
        }
    }
    let own_path = icon_file_name(request.asset_id.as_str());
    let flow = CheckFlow {
        asset_id: request.asset_id.clone(),
        force_refresh: request.forces_refresh(),
        own_path: own_path.clone(),
        stage: CheckStage::Stat(Hop::Own),
        candidate_id: request.asset_id.clone(),
        candidate_path: own_path.clone(),
    };
    (flow, Action::Stat { path: own_path })
}

impl CheckFlow {
    /// Whether the check is over.
    pub fn is_done(&self) -> (done: bool)
        ensures
            done == (self@.stage == CheckStage::Done),
    {
        match self.stage {
            CheckStage::Done => true,
            _ => false,
        }
    }

    fn finish(&mut self, status: IconStatus) -> (action: Action)
        ensures
            final(self)@ == old(self)@.at(CheckStage::Done),
            action@ == reply(status),
    {
        self.stage = CheckStage::Done;
        Action::Reply { response: IconResponse::bare(status) }
    }

    fn fetch_candidate(&mut self) -> (action: Action)
        ensures
            final(self)@ == old(self)@.at(CheckStage::Done),
            action@ == old(self)@.fetch(),
    {
        self.stage = CheckStage::Done;
        Action::Fetch { asset_id: self.candidate_id.clone(), path: self.candidate_path.clone() }
    }

    fn find_underlying(&mut self) -> (action: Action)
        ensures
            final(self)@ == old(self)@.at(CheckStage::Underlying),
            action@ == (ActionView::FindUnderlying { asset_id: old(self)@.asset_id }),
    {
        self.stage = CheckStage::Underlying;
        Action::FindUnderlying { asset_id: self.asset_id.clone() }
    }

    fn find_collection(&mut self) -> (action: Action)
        ensures
            final(self)@ == old(self)@.at(CheckStage::Collection),
            action@ == (ActionView::FindCollection { asset_id: old(self)@.asset_id }),
    {
        self.stage = CheckStage::Collection;
        Action::FindCollection { asset_id: self.asset_id.clone() }
    }

    fn on_stat(&mut self, hop: Hop, entry: Probe) -> (action: Action)
        ensures
            (final(self)@, action@) == old(self)@.on_stat(hop, entry),
    {
        let own = match hop {
            Hop::Own => true,
            _ => false,
        };
        if own && !entry.is_usable() {
            let marker = match entry {
                Probe::NegativeCached { .. } => true,
                _ => false,
            };
            if self.force_refresh && marker {
                self.stage = CheckStage::Clearing;
                return Action::Remove { path: self.own_path.clone() };
            }
            return self.find_collection();
        }
        match candidate_verdict(entry, self.force_refresh) {
            Verdict::Serve => self.finish(IconStatus::Found),
            Verdict::Broken => self.finish(IconStatus::InternalError),
            Verdict::Fetch => self.fetch_candidate(),
            Verdict::Refresh => {
                self.stage = CheckStage::Removal;
                Action::Remove { path: self.candidate_path.clone() }
            },
            Verdict::Missing => {
                match hop {
                    Hop::Underlying => self.finish(IconStatus::NotFound),
                    _ => self.find_underlying(),
                }
            },
        }
    }

    fn on_removal(&mut self, removed: bool) -> (action: Action)
        ensures
            (final(self)@, action@) == old(self)@.on_removal(removed),
    {
        if removed || !self.force_refresh {
            self.fetch_candidate()
        } else {
            self.finish(IconStatus::InternalError)
        }
    }

    fn on_clearing(&mut self, removed: bool) -> (action: Action)
        ensures
            (final(self)@, action@) == old(self)@.on_clearing(removed),
    {
        if removed {
            self.find_collection()
        } else {
            self.finish(IconStatus::InternalError)
        }
    }

    fn on_collection(&mut self, collection: &Lookup) -> (action: Action)
        ensures
            (final(self)@, action@) == old(self)@.on_collection(collection.relation()),
    {
        let path = resolve_icon_path(self.asset_id.as_str(), true, collection);
        if path != self.own_path {
            self.stage = CheckStage::Stat(Hop::Collection);
            self.candidate_id = self.asset_id.clone();
            self.candidate_path = path.clone();
            Action::Stat { path }
        } else {
            self.find_underlying()
        }
    }

    fn on_underlying(&mut self, underlying: Lookup) -> (action: Action)
        ensures
            (final(self)@, action@) == old(self)@.on_underlying(underlying.relation()),
    {
        match underlying {
            Lookup::Known(id) => {
                let path = icon_file_name(id.as_str());
                self.stage = CheckStage::Stat(Hop::Underlying);
                self.candidate_id = id;
                self.candidate_path = path.clone();
                Action::Stat { path }
            },
            _ => {
                self.stage = CheckStage::Done;
                Action::Fetch { asset_id: self.asset_id.clone(), path: self.own_path.clone() }
            },
        }
    }

    /// Takes the report of what the last action led to and says what to do
    /// next.
    pub fn advance(&mut self, event: Event) -> (action: Action)
        ensures
            (final(self)@, action@) == old(self)@.step(event@),
            action@.is_final() <==> final(self)@.stage == CheckStage::Done,
            old(self)@.wf() ==> final(self)@.wf(),
    {
        match (self.stage, event) {
            (CheckStage::Stat(hop), Event::Stat(stat)) => self.on_stat(hop, probe(stat)),
            (CheckStage::Removal, Event::Removed(removed)) => self.on_removal(removed),
            (CheckStage::Clearing, Event::Removed(removed)) => self.on_clearing(removed),
            (CheckStage::Collection, Event::Collection(c)) => self.on_collection(&c),
            (CheckStage::Underlying, Event::Underlying(u)) => self.on_underlying(u),
            _ => self.finish(IconStatus::InternalError),
        }
    }
}

} // verus!
