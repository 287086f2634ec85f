//! Fetch coordinator: at most one remote fetch per asset at any time.
//!
//! The coordinator owns the set of fetches in flight. Whoever shares it
//! between requests must let one caller at a time use it; the coordinator then
//! makes sure that of any number of callers asking for the same asset, one
//! starts the fetch and the others learn that it is under way.

use crate::status::IconStatus;
use vstd::hash_set::StringHashSet;
use vstd::prelude::*;
use vstd::string::StringExecFns;

verus! {

/// The namespace under which icon fetches are registered.
pub open spec fn fetch_key_prefix() -> Seq<char> {
    "query_icons_"@
}

/// The key under which the fetch for an asset is registered: the namespace
/// prefix and the id of the asset that is fetched.
pub open spec fn fetch_key(asset_id: Seq<char>) -> Seq<char> {
    fetch_key_prefix() + asset_id
}

/// Builds the key under which the fetch for `asset_id` is registered.
pub fn make_fetch_key(asset_id: &str) -> (key: String)
    ensures
        key@ == fetch_key(asset_id@),
{
    let mut key = String::from_str("query_icons_");
    key.append(asset_id);
    key
}

/// The set of fetches in flight.
pub struct ActiveFetches {
    keys: StringHashSet,
}

impl View for ActiveFetches {
    type V = Set<Seq<char>>;

    closed spec fn view(&self) -> Set<Seq<char>> {
        self.keys@
    }
}

/// What a caller gets back from asking for a fetch.
#[derive(Debug, PartialEq, Eq)]
pub struct FetchTicket {
    /// The answer for the client.
    pub status: IconStatus,
    /// The key under which the fetch is registered.
    pub key: String,
    /// Whether the caller is the one to start the fetch. It then owes a call
    /// of [`ActiveFetches::complete_fetch`] with `key` when the fetch is over,
    /// whatever its outcome.
    pub spawn: bool,
}

impl ActiveFetches {
    /// A coordinator with nothing in flight.
    pub fn new() -> (fetches: ActiveFetches)
        ensures
            fetches@ == Set::<Seq<char>>::empty(),
    {
        ActiveFetches { keys: StringHashSet::new() }
    }

    /// Whether a fetch for `asset_id` is in flight.
    pub fn is_active(&self, asset_id: &str) -> (active: bool)
        ensures
            active == self@.contains(fetch_key(asset_id@)),
    {
        let key = make_fetch_key(asset_id);
        self.keys.contains(key.as_str())
    }

    /// Asks for a fetch of `asset_id`. The client is told `Accepted` in every
    /// case. The caller is to start the fetch exactly when none was in flight
    /// for the asset; the fetch is registered before this returns.
    pub fn trigger_fetch(&mut self, asset_id: &str) -> (ticket: FetchTicket)
        ensures
            ticket.status == IconStatus::Accepted,
            ticket.key@ == fetch_key(asset_id@),
            ticket.spawn == !old(self)@.contains(fetch_key(asset_id@)),
            final(self)@ == old(self)@.insert(fetch_key(asset_id@)),
    {
        let key = make_fetch_key(asset_id);
        let spawn = self.keys.insert(key.clone());
        FetchTicket { status: IconStatus::Accepted, key, spawn }
    }

    /// Records that the fetch registered under `key` is over.
    pub fn complete_fetch(&mut self, key: &str)
        ensures
            final(self)@ == old(self)@.remove(key@),
    {
        self.keys.remove(key);
    }
}

/// Two assets share a fetch key only if they are the same asset.
pub proof fn lemma_fetch_key_injective(a: Seq<char>, b: Seq<char>)
    requires
        fetch_key(a) == fetch_key(b),
    ensures
        a == b,
{
    let p = fetch_key_prefix();
    assert(a =~= (p + a).skip(p.len() as int));
    assert(b =~= (p + b).skip(p.len() as int));
}

/// The number of fetches started by `calls` requests for the same asset that
/// reach the coordinator one after the other while no fetch completes.
pub open spec fn fetches_started(in_flight: Set<Seq<char>>, asset_id: Seq<char>, calls: nat) -> nat
    decreases calls,
{
    if calls == 0 {
        0
    } else {
        let first: nat = if in_flight.contains(fetch_key(asset_id)) {
            0
        } else {
            1
        };
        first + fetches_started(
            in_flight.insert(fetch_key(asset_id)),
            asset_id,
            (calls - 1) as nat,
        )
    }
}

/// Single flight: however many requests for an asset arrive while its fetch
/// is under way, one fetch is started if none was in flight before the first
/// of them, and none otherwise.
pub proof fn lemma_single_flight(in_flight: Set<Seq<char>>, asset_id: Seq<char>, calls: nat)
    ensures
        fetches_started(in_flight, asset_id, calls) == if calls > 0 && !in_flight.contains(
            fetch_key(asset_id),
        ) {
            1nat
        } else {
            0nat
        },
    decreases calls,
{
    if calls > 0 {
        lemma_single_flight(in_flight.insert(fetch_key(asset_id)), asset_id, (calls - 1) as nat);
    }
}

/// Something that happens at the coordinator.
pub enum FetchEvent {
    /// A request asks for a fetch of the asset.
    Asked(Seq<char>),
    /// The fetch of the asset comes to its end, with or without an icon.
    Finished(Seq<char>),
}

/// Where one fetch key stands.
pub struct Flight {
    /// Whether the key is in the set of fetches in flight.
    pub registered: bool,
    /// How many fetches for the key are running.
    pub running: nat,
}

/// Where `key` stands after `events`, starting with nothing in flight. A
/// request starts a fetch exactly when the key is not registered; only a fetch
/// that runs can finish, and it takes its key out of the set.
pub open spec fn flight_after(events: Seq<FetchEvent>, key: Seq<char>) -> Flight
    decreases events.len(),
{
    if events.len() == 0 {
        Flight { registered: false, running: 0 }
    } else {
        let before = flight_after(events.drop_last(), key);
        match events.last() {
            FetchEvent::Asked(asset_id) => if fetch_key(asset_id) == key && !before.registered {
                Flight { registered: true, running: before.running + 1 }
            } else {
                before
            },
            FetchEvent::Finished(asset_id) => if fetch_key(asset_id) == key && before.running > 0 {
                Flight { registered: false, running: (before.running - 1) as nat }
            } else {
                before
            },
        }
    }
}

/// At any instant at most one fetch runs for a key, and one runs exactly
/// while the key is registered.
pub proof fn lemma_at_most_one_fetch(events: Seq<FetchEvent>, key: Seq<char>)
    ensures
        flight_after(events, key).running <= 1,
        flight_after(events, key).registered <==> flight_after(events, key).running == 1,
    decreases events.len(),
{
    if events.len() > 0 {
        lemma_at_most_one_fetch(events.drop_last(), key);
    }
}

} // verus!
