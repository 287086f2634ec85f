//! What a whole check comes to.
//!
//! A check is decided one step at a time. Played against a world that
//! changes only through what the check deletes, its steps add up to a script
//! that can be written down directly; the laws of the check are stated and
//! proved of that script.

use crate::check::{
    check_first_action, check_start, clears_marker, fetch_after_removal, verdict, CheckStage,
    CheckState, Verdict,
};
use crate::path::{cache_file_name, icon_path};
use crate::probe::{classify, Probe, RECHECK_PERIOD_SECS};
use crate::protocol::{reply, ActionView, Hop};
use crate::status::IconStatus;
use crate::world::World;
use vstd::prelude::*;

verus! {

/// The actions of a check that is played against `world`, from the pending
/// `action` on: each action that does not end the request is answered by the
/// world and the answer is fed to the transition; a deletion that succeeds
/// changes the world for what follows. At most `steps` transitions are taken.
pub open spec fn check_run(state: CheckState, action: ActionView, world: World, steps: nat) -> Seq<
    ActionView,
>
    decreases steps,
{
    if steps == 0 || action.is_final() {
        seq![action]
    } else {
        let (next, then) = state.step(world.report(action));
        seq![action] + check_run(next, then, world.after(action), (steps - 1) as nat)
    }
}

/// How a candidate that settles the request does so, after its cache file
/// was inspected: the actions that follow, the last of which ends the
/// request.
pub open spec fn settlement(
    id: Seq<char>,
    path: Seq<char>,
    entry: Probe,
    force_refresh: bool,
    world: World,
) -> Seq<ActionView> {
    let fetch = ActionView::Fetch { asset_id: id, path };
    match verdict(entry, force_refresh) {
        Verdict::Serve => seq![reply(IconStatus::Found)],
        Verdict::Missing => seq![reply(IconStatus::NotFound)],
        Verdict::Broken => seq![reply(IconStatus::InternalError)],
        Verdict::Fetch => seq![fetch],
        Verdict::Refresh => seq![
            ActionView::Remove { path },
            if fetch_after_removal((world.removable)(path), force_refresh) {
                fetch
            } else {
                reply(IconStatus::InternalError)
            },
        ],
    }
}

/// The last hop of a check: the underlying asset settles the request
/// whatever the state of its icon; without an underlying asset the asset's
/// own icon is fetched.
pub open spec fn underlying_hop(asset_id: Seq<char>, force_refresh: bool, world: World) -> Seq<
    ActionView,
> {
    seq![ActionView::FindUnderlying { asset_id }] + match (world.underlying)(asset_id) {
        Some(id) => {
            let path = cache_file_name(id);
            seq![ActionView::Stat { path }] + settlement(
                id,
                path,
                classify((world.stat)(path)),
                force_refresh,
                world,
            )
        },
        None => seq![ActionView::Fetch { asset_id, path: cache_file_name(asset_id) }],
    }
}

/// The middle hop of a check: the collection's icon is consulted where its
/// path is not the asset's own, and settles the request unless it is found
/// missing.
pub open spec fn collection_hop(asset_id: Seq<char>, force_refresh: bool, world: World) -> Seq<
    ActionView,
> {
    let path = icon_path(asset_id, true, (world.collection)(asset_id));
    let entry = classify((world.stat)(path));
    seq![ActionView::FindCollection { asset_id }] + if path == cache_file_name(asset_id) {
        underlying_hop(asset_id, force_refresh, world)
    } else if verdict(entry, force_refresh) == Verdict::Missing {
        seq![ActionView::Stat { path }] + underlying_hop(asset_id, force_refresh, world)
    } else {
        seq![ActionView::Stat { path }] + settlement(asset_id, path, entry, force_refresh, world)
    }
}

/// The first hop of a check, once the asset's own cache file was inspected.
/// A cached icon settles the request. A forced refresh deletes a marker
/// before it goes on, and fails where the marker cannot be deleted. In every
/// other case the check goes on to the collection.
pub open spec fn own_hop(asset_id: Seq<char>, force_refresh: bool, world: World) -> Seq<
    ActionView,
> {
    let path = cache_file_name(asset_id);
    let entry = classify((world.stat)(path));
    if entry.is_usable() {
        settlement(asset_id, path, entry, force_refresh, world)
    } else if clears_marker(entry, force_refresh) {
        seq![ActionView::Remove { path }] + if (world.removable)(path) {
            collection_hop(asset_id, force_refresh, world.without(path))
        } else {
            seq![reply(IconStatus::InternalError)]
        }
    } else {
        collection_hop(asset_id, force_refresh, world)
    }
}

/// Everything a check of `asset_id` does in `world`, in order: the asset's
/// own icon is consulted first, then the collection, then the underlying
/// asset.
pub open spec fn check_script(asset_id: Seq<char>, force_refresh: bool, world: World) -> Seq<
    ActionView,
> {
    seq![ActionView::Stat { path: cache_file_name(asset_id) }] + own_hop(
        asset_id,
        force_refresh,
        world,
    )
}

/// The status a check of `asset_id` ends with in `world`.
pub open spec fn check_status(asset_id: Seq<char>, force_refresh: bool, world: World) -> IconStatus {
    check_script(asset_id, force_refresh, world).last().status()->0
}

/// Whether the asset's own path leaves a check undecided: it holds no icon,
/// and a marker that a forced refresh has to delete can be deleted.
pub open spec fn own_passes(asset_id: Seq<char>, force_refresh: bool, world: World) -> bool {
    let path = cache_file_name(asset_id);
    let entry = classify((world.stat)(path));
    &&& !entry.is_usable()
    &&& clears_marker(entry, force_refresh) ==> (world.removable)(path)
}

/// The world in which a check consults the candidates beyond the asset's own
/// path: the one it began in, less the marker that a forced refresh deleted.
pub open spec fn beyond_own(asset_id: Seq<char>, force_refresh: bool, world: World) -> World {
    let path = cache_file_name(asset_id);
    if clears_marker(classify((world.stat)(path)), force_refresh) {
        world.without(path)
    } else {
        world
    }
}

/// Whether the collection leaves a check undecided in `world`: its path is
/// the asset's own, or its icon is found missing.
pub open spec fn collection_passes(asset_id: Seq<char>, force_refresh: bool, world: World) -> bool {
    let path = icon_path(asset_id, true, (world.collection)(asset_id));
    path == cache_file_name(asset_id) || verdict(classify((world.stat)(path)), force_refresh)
        == Verdict::Missing
}

/// Whether the check comes down to the underlying asset `id`: neither the
/// asset's own path nor the collection settles it, and the store names `id`
/// as the underlying asset.
pub open spec fn comes_down_to(
    asset_id: Seq<char>,
    force_refresh: bool,
    world: World,
    id: Seq<char>,
) -> bool {
    &&& own_passes(asset_id, force_refresh, world)
    &&& collection_passes(asset_id, force_refresh, beyond_own(asset_id, force_refresh, world))
    &&& (world.underlying)(asset_id) == Some(id)
}

/// The state in which a check finds the cache entry of the underlying asset
/// `id` when it comes down to it.
pub open spec fn underlying_entry(
    asset_id: Seq<char>,
    force_refresh: bool,
    world: World,
    id: Seq<char>,
) -> Probe {
    classify((beyond_own(asset_id, force_refresh, world).stat)(cache_file_name(id)))
}

/// Whether a stretch of actions ends the request in good order: its last
/// action ends the request and no other does, and a deletion, if there is
/// one, comes just before the end.
spec fn ends_in_order(actions: Seq<ActionView>) -> bool {
    &&& actions.len() >= 1
    &&& actions.last().is_final()
    &&& forall|i: int| 0 <= i < actions.len() - 1 ==> !(#[trigger] actions[i]).is_final()
    &&& forall|i: int|
        0 <= i < actions.len() && (#[trigger] actions[i]) is Remove ==> i == actions.len() - 2
}

/// An action that neither deletes nor ends the request, put before a
/// stretch that ends in good order, gives such a stretch again.
proof fn lemma_order_kept(head: ActionView, tail: Seq<ActionView>)
    requires
        ends_in_order(tail),
        !head.is_final(),
        !(head is Remove),
    ensures
        ends_in_order(seq![head] + tail),
        (seq![head] + tail).len() == tail.len() + 1,
        (seq![head] + tail).last() == tail.last(),
{
    let all = seq![head] + tail;
    assert forall|i: int| 0 <= i < all.len() - 1 implies !(#[trigger] all[i]).is_final() by {
        if i > 0 {
            assert(all[i] == tail[i - 1]);
        }
    }
    assert forall|i: int| 0 <= i < all.len() && (#[trigger] all[i]) is Remove implies i
        == all.len() - 2 by {
        assert(all[i] == tail[i - 1]);
    }
}

proof fn lemma_settlement_in_order(
    id: Seq<char>,
    path: Seq<char>,
    entry: Probe,
    force_refresh: bool,
    world: World,
)
    ensures
        ends_in_order(settlement(id, path, entry, force_refresh, world)),
        settlement(id, path, entry, force_refresh, world).len() <= 2,
{
}

proof fn lemma_underlying_hop_in_order(asset_id: Seq<char>, force_refresh: bool, world: World)
    ensures
        ends_in_order(underlying_hop(asset_id, force_refresh, world)),
        2 <= underlying_hop(asset_id, force_refresh, world).len() <= 4,
{
    let find = ActionView::FindUnderlying { asset_id };
    match (world.underlying)(asset_id) {
        Some(id) => {
            let path = cache_file_name(id);
            let tail = settlement(id, path, classify((world.stat)(path)), force_refresh, world);
            lemma_settlement_in_order(id, path, classify((world.stat)(path)), force_refresh, world);
            lemma_order_kept(ActionView::Stat { path }, tail);
            lemma_order_kept(find, seq![ActionView::Stat { path }] + tail);
        },
        None => {
            let fetch = ActionView::Fetch { asset_id, path: cache_file_name(asset_id) };
            assert(ends_in_order(seq![fetch]));
            lemma_order_kept(find, seq![fetch]);
        },
    }
}

proof fn lemma_collection_hop_in_order(asset_id: Seq<char>, force_refresh: bool, world: World)
    ensures
        ends_in_order(collection_hop(asset_id, force_refresh, world)),
        3 <= collection_hop(asset_id, force_refresh, world).len() <= 6,
        !(collection_hop(asset_id, force_refresh, world)[0] is Remove),
{
    let find = ActionView::FindCollection { asset_id };
    let path = icon_path(asset_id, true, (world.collection)(asset_id));
    let entry = classify((world.stat)(path));
    let stat = ActionView::Stat { path };
    lemma_underlying_hop_in_order(asset_id, force_refresh, world);
    lemma_settlement_in_order(asset_id, path, entry, force_refresh, world);
    if path == cache_file_name(asset_id) {
        lemma_order_kept(find, underlying_hop(asset_id, force_refresh, world));
    } else if verdict(entry, force_refresh) == Verdict::Missing {
        lemma_order_kept(stat, underlying_hop(asset_id, force_refresh, world));
        lemma_order_kept(find, seq![stat] + underlying_hop(asset_id, force_refresh, world));
    } else {
        let tail = settlement(asset_id, path, entry, force_refresh, world);
        lemma_order_kept(stat, tail);
        lemma_order_kept(find, seq![stat] + tail);
    }
}

/// The action a candidate's settlement ends with.
pub open spec fn settlement_end(
    id: Seq<char>,
    path: Seq<char>,
    entry: Probe,
    force_refresh: bool,
    world: World,
) -> ActionView {
    match verdict(entry, force_refresh) {
        Verdict::Serve => reply(IconStatus::Found),
        Verdict::Missing => reply(IconStatus::NotFound),
        Verdict::Broken => reply(IconStatus::InternalError),
        Verdict::Fetch => ActionView::Fetch { asset_id: id, path },
        Verdict::Refresh => if fetch_after_removal((world.removable)(path), force_refresh) {
            ActionView::Fetch { asset_id: id, path }
        } else {
            reply(IconStatus::InternalError)
        },
    }
}

/// The action the hops beyond the own path end with in `world`.
pub open spec fn hops_end(asset_id: Seq<char>, force_refresh: bool, world: World) -> ActionView {
    let shared = icon_path(asset_id, true, (world.collection)(asset_id));
    if !collection_passes(asset_id, force_refresh, world) {
        settlement_end(asset_id, shared, classify((world.stat)(shared)), force_refresh, world)
    } else {
        match (world.underlying)(asset_id) {
            Some(id) => settlement_end(
                id,
                cache_file_name(id),
                classify((world.stat)(cache_file_name(id))),
                force_refresh,
                world,
            ),
            None => ActionView::Fetch { asset_id, path: cache_file_name(asset_id) },
        }
    }
}

/// The action a check ends with: what settles it at the own path, the
/// failure to delete the own marker, or what the hops beyond end with.
pub open spec fn check_end(asset_id: Seq<char>, force_refresh: bool, world: World) -> ActionView {
    let path = cache_file_name(asset_id);
    let entry = classify((world.stat)(path));
    if entry.is_usable() {
        settlement_end(asset_id, path, entry, force_refresh, world)
    } else if !own_passes(asset_id, force_refresh, world) {
        reply(IconStatus::InternalError)
    } else {
        hops_end(asset_id, force_refresh, beyond_own(asset_id, force_refresh, world))
    }
}

proof fn lemma_hops_end(asset_id: Seq<char>, force_refresh: bool, world: World)
    ensures
        collection_hop(asset_id, force_refresh, world).last() == hops_end(
            asset_id,
            force_refresh,
            world,
        ),
{
    let find = ActionView::FindCollection { asset_id };
    let shared = icon_path(asset_id, true, (world.collection)(asset_id));
    let entry = classify((world.stat)(shared));
    let stat = ActionView::Stat { path: shared };
    lemma_underlying_hop_in_order(asset_id, force_refresh, world);
    lemma_settlement_in_order(asset_id, shared, entry, force_refresh, world);
    if collection_passes(asset_id, force_refresh, world) {
        let under = underlying_hop(asset_id, force_refresh, world);
        let seek = ActionView::FindUnderlying { asset_id };
        match (world.underlying)(asset_id) {
            Some(id) => {
                let at = cache_file_name(id);
                let tail = settlement(id, at, classify((world.stat)(at)), force_refresh, world);
                lemma_settlement_in_order(id, at, classify((world.stat)(at)), force_refresh, world);
                lemma_order_kept(ActionView::Stat { path: at }, tail);
                lemma_order_kept(seek, seq![ActionView::Stat { path: at }] + tail);
            },
            None => {
                lemma_order_kept(seek, seq![ActionView::Fetch {
                    asset_id,
                    path: cache_file_name(asset_id),
                }]);
            },
        }
        if shared == cache_file_name(asset_id) {
            lemma_order_kept(find, under);
        } else {
            lemma_order_kept(stat, under);
            lemma_order_kept(find, seq![stat] + under);
        }
    } else {
        let tail = settlement(asset_id, shared, entry, force_refresh, world);
        lemma_order_kept(stat, tail);
        lemma_order_kept(find, seq![stat] + tail);
    }
}

/// A check ends with the action that [`check_end`] names.
pub proof fn lemma_check_end(asset_id: Seq<char>, force_refresh: bool, world: World)
    ensures
        check_script(asset_id, force_refresh, world).last() == check_end(
            asset_id,
            force_refresh,
            world,
        ),
        check_status(asset_id, force_refresh, world) == check_end(
            asset_id,
            force_refresh,
            world,
        ).status()->0,
{
    let script = check_script(asset_id, force_refresh, world);
    let path = cache_file_name(asset_id);
    let entry = classify((world.stat)(path));
    let stat = ActionView::Stat { path };
    if entry.is_usable() {
        let tail = settlement(asset_id, path, entry, force_refresh, world);
        lemma_settlement_in_order(asset_id, path, entry, force_refresh, world);
        lemma_order_kept(stat, tail);
    } else if clears_marker(entry, force_refresh) {
        let remove = ActionView::Remove { path };
        if (world.removable)(path) {
            let tail = collection_hop(asset_id, force_refresh, world.without(path));
            lemma_collection_hop_in_order(asset_id, force_refresh, world.without(path));
            lemma_hops_end(asset_id, force_refresh, world.without(path));
            assert(script =~= seq![stat, remove] + tail);
            assert(script.last() == tail.last());
        } else {
            assert(script =~= seq![stat, remove, reply(IconStatus::InternalError)]);
        }
    } else {
        let tail = collection_hop(asset_id, force_refresh, world);
        lemma_collection_hop_in_order(asset_id, force_refresh, world);
        lemma_hops_end(asset_id, force_refresh, world);
        lemma_order_kept(stat, tail);
    }
}

/// The shape of a script: after the first inspection either a stretch that
/// ends in good order, or the deletion of the own marker and then such a
/// stretch.
proof fn lemma_script_shape(asset_id: Seq<char>, force_refresh: bool, world: World)
    ensures
        ({
            let script = check_script(asset_id, force_refresh, world);
            let path = cache_file_name(asset_id);
            let entry = classify((world.stat)(path));
            &&& script[0] == (ActionView::Stat { path })
            &&& if !entry.is_usable() && clears_marker(entry, force_refresh) {
                &&& script[1] == (ActionView::Remove { path })
                &&& ends_in_order(script.skip(2))
                &&& 3 <= script.len() <= 8
                &&& !(script[2] is Remove)
            } else {
                &&& ends_in_order(script)
                &&& 2 <= script.len() <= 7
            }
        }),
{
    let script = check_script(asset_id, force_refresh, world);
    let path = cache_file_name(asset_id);
    let entry = classify((world.stat)(path));
    let stat = ActionView::Stat { path };
    if entry.is_usable() {
        lemma_settlement_in_order(asset_id, path, entry, force_refresh, world);
        lemma_order_kept(stat, settlement(asset_id, path, entry, force_refresh, world));
    } else if clears_marker(entry, force_refresh) {
        let remove = ActionView::Remove { path };
        if (world.removable)(path) {
            let tail = collection_hop(asset_id, force_refresh, world.without(path));
            lemma_collection_hop_in_order(asset_id, force_refresh, world.without(path));
            assert(script =~= seq![stat, remove] + tail);
            assert(script.skip(2) =~= tail);
        } else {
            let tail = seq![reply(IconStatus::InternalError)];
            assert(script =~= seq![stat, remove] + tail);
            assert(script.skip(2) =~= tail);
        }
    } else {
        lemma_collection_hop_in_order(asset_id, force_refresh, world);
        lemma_order_kept(stat, collection_hop(asset_id, force_refresh, world));
    }
}

/// A candidate that settles the request does so as [`settlement`] says.
proof fn lemma_run_settles(state: CheckState, hop: Hop, world: World, steps: nat)
    requires
        steps >= 2,
        state.stage == CheckStage::Stat(hop),
        ({
            let entry = classify((world.stat)(state.candidate_path));
            if hop == Hop::Own {
                entry.is_usable()
            } else {
                hop == Hop::Underlying || verdict(entry, state.force_refresh) != Verdict::Missing
            }
        }),
    ensures
        check_run(state, ActionView::Stat { path: state.candidate_path }, world, steps) == seq![
            ActionView::Stat { path: state.candidate_path },
        ] + settlement(
            state.candidate_id,
            state.candidate_path,
            classify((world.stat)(state.candidate_path)),
            state.force_refresh,
            world,
        ),
{
    reveal_with_fuel(check_run, 3);
    let first = ActionView::Stat { path: state.candidate_path };
    let run = check_run(state, first, world, steps);
    let entry = classify((world.stat)(state.candidate_path));
    let tail = settlement(state.candidate_id, state.candidate_path, entry, state.force_refresh, world);
    assert(run =~= seq![first] + tail);
}

/// From the lookup of the underlying asset on, a check does what
/// [`underlying_hop`] says.
proof fn lemma_run_underlying(state: CheckState, world: World, steps: nat)
    requires
        steps >= 3,
        state.stage == CheckStage::Underlying,
        state.wf(),
    ensures
        check_run(
            state,
            ActionView::FindUnderlying { asset_id: state.asset_id },
            world,
            steps,
        ) == underlying_hop(state.asset_id, state.force_refresh, world),
{
    reveal_with_fuel(check_run, 2);
    let first = ActionView::FindUnderlying { asset_id: state.asset_id };
    let (next, then) = state.step(world.report(first));
    match (world.underlying)(state.asset_id) {
        Some(id) => {
            lemma_run_settles(next, Hop::Underlying, world, (steps - 1) as nat);
        },
        None => {},
    }
    assert(check_run(state, first, world, steps) =~= underlying_hop(
        state.asset_id,
        state.force_refresh,
        world,
    ));
}

/// From the lookup of the collection on, a check does what
/// [`collection_hop`] says.
proof fn lemma_run_collection(state: CheckState, world: World, steps: nat)
    requires
        steps >= 5,
        state.stage == CheckStage::Collection,
        state.wf(),
    ensures
        check_run(
            state,
            ActionView::FindCollection { asset_id: state.asset_id },
            world,
            steps,
        ) == collection_hop(state.asset_id, state.force_refresh, world),
{
    reveal_with_fuel(check_run, 3);
    let first = ActionView::FindCollection { asset_id: state.asset_id };
    let (next, then) = state.step(world.report(first));
    let path = icon_path(state.asset_id, true, (world.collection)(state.asset_id));
    let entry = classify((world.stat)(path));
    if path == state.own_path {
        lemma_run_underlying(next, world, (steps - 1) as nat);
    } else if verdict(entry, state.force_refresh) == Verdict::Missing {
        let (after, last) = next.step(world.report(then));
        lemma_run_underlying(after, world, (steps - 2) as nat);
    } else {
        lemma_run_settles(next, Hop::Collection, world, (steps - 1) as nat);
    }
    assert(check_run(state, first, world, steps) =~= collection_hop(
        state.asset_id,
        state.force_refresh,
        world,
    ));
}

/// A check that is played against a world does what [`check_script`] says,
/// and seven transitions are enough for it to end.
pub proof fn lemma_check_follows_script(asset_id: Seq<char>, force_refresh: bool, world: World)
    ensures
        check_run(
            check_start(asset_id, force_refresh),
            check_first_action(asset_id),
            world,
            7,
        ) == check_script(asset_id, force_refresh, world),
        check_script(asset_id, force_refresh, world).last().is_final(),
{
    reveal_with_fuel(check_run, 3);
    let state = check_start(asset_id, force_refresh);
    let first = check_first_action(asset_id);
    let path = state.own_path;
    let entry = classify((world.stat)(path));
    let (next, then) = state.step(world.report(first));
    if entry.is_usable() {
        lemma_run_settles(state, Hop::Own, world, 7);
    } else if clears_marker(entry, force_refresh) {
        if (world.removable)(path) {
            let (after, last) = next.step(world.report(then));
            lemma_run_collection(after, world.without(path), 5);
        }
    } else {
        lemma_run_collection(next, world, 6);
    }
    assert(check_run(state, first, world, 7) =~= check_script(asset_id, force_refresh, world));
    lemma_script_ends(asset_id, force_refresh, world);
}

/// The script of a check ends with an action that ends the request, and
/// holds no other such action.
pub proof fn lemma_script_ends(asset_id: Seq<char>, force_refresh: bool, world: World)
    ensures
        check_script(asset_id, force_refresh, world).last().is_final(),
        forall|i: int|
            0 <= i < check_script(asset_id, force_refresh, world).len() - 1
                ==> !(#[trigger] check_script(asset_id, force_refresh, world)[i]).is_final(),
        2 <= check_script(asset_id, force_refresh, world).len() <= 8,
{
    let script = check_script(asset_id, force_refresh, world);
    lemma_script_shape(asset_id, force_refresh, world);
    let rest = script.skip(2);
    if !ends_in_order(script) {
        assert(script.last() == rest.last());
        assert forall|i: int| 0 <= i < script.len() - 1 implies !(#[trigger] script[i]).is_final() by {
            if i >= 2 {
                assert(script[i] == rest[i - 2]);
            }
        }
    }
}

/// The negative-cache window, for one candidate: without a forced refresh a
/// marker younger than twelve hours is taken as proof of absence, an older
/// one is deleted and looked up again.
pub proof fn lemma_marker_window(age_secs: u64)
    ensures
        RECHECK_PERIOD_SECS == 12 * 60 * 60,
        age_secs < RECHECK_PERIOD_SECS ==> verdict(Probe::NegativeCached { age_secs }, false)
            == Verdict::Missing,
        age_secs >= RECHECK_PERIOD_SECS ==> verdict(Probe::NegativeCached { age_secs }, false)
            == Verdict::Refresh,
{
}

/// A forced refresh, for one candidate: a file whose state is known, with
/// content or without, young or old, is deleted first and then fetched; where
/// it cannot be deleted the request fails and nothing is fetched.
pub proof fn lemma_forced_refresh_of_candidate(
    id: Seq<char>,
    path: Seq<char>,
    entry: Probe,
    world: World,
)
    requires
        entry is Present || entry is NegativeCached,
    ensures
        verdict(entry, true) == Verdict::Refresh,
        settlement(id, path, entry, true, world) == seq![
            ActionView::Remove { path },
            if (world.removable)(path) {
                ActionView::Fetch { asset_id: id, path }
            } else {
                reply(IconStatus::InternalError)
            },
        ],
{
}

/// A forced refresh of an asset whose own icon is cached deletes that file
/// and fetches the icon again.
pub proof fn lemma_forced_refresh(asset_id: Seq<char>, world: World)
    requires
        classify((world.stat)(cache_file_name(asset_id))).is_usable(),
    ensures
        check_script(asset_id, true, world) == seq![
            ActionView::Stat { path: cache_file_name(asset_id) },
            ActionView::Remove { path: cache_file_name(asset_id) },
            if (world.removable)(cache_file_name(asset_id)) {
                ActionView::Fetch { asset_id, path: cache_file_name(asset_id) }
            } else {
                reply(IconStatus::InternalError)
            },
        ],
        (world.removable)(cache_file_name(asset_id)) ==> check_status(asset_id, true, world)
            == IconStatus::Accepted,
{
    let path = cache_file_name(asset_id);
    let entry = classify((world.stat)(path));
    let expected = seq![
        ActionView::Stat { path },
        ActionView::Remove { path },
        if (world.removable)(path) {
            ActionView::Fetch { asset_id, path }
        } else {
            reply(IconStatus::InternalError)
        },
    ];
    assert(check_script(asset_id, true, world) =~= expected);
}

/// A forced refresh over a marker at the asset's own path deletes the marker
/// right after it was found. Where it cannot be deleted the check fails;
/// otherwise the check goes on, and ends, as it does where the own path is
/// empty.
pub proof fn lemma_forced_refresh_of_own_marker(asset_id: Seq<char>, world: World)
    requires
        classify((world.stat)(cache_file_name(asset_id))) is NegativeCached,
    ensures
        check_script(asset_id, true, world)[0] == (ActionView::Stat {
            path: cache_file_name(asset_id),
        }),
        check_script(asset_id, true, world)[1] == (ActionView::Remove {
            path: cache_file_name(asset_id),
        }),
        !(world.removable)(cache_file_name(asset_id)) ==> check_script(asset_id, true, world)
            == seq![
            ActionView::Stat { path: cache_file_name(asset_id) },
            ActionView::Remove { path: cache_file_name(asset_id) },
            reply(IconStatus::InternalError),
        ],
        (world.removable)(cache_file_name(asset_id)) ==> check_script(asset_id, true, world)
            == seq![
            ActionView::Stat { path: cache_file_name(asset_id) },
            ActionView::Remove { path: cache_file_name(asset_id) },
        ] + check_script(asset_id, true, world.without(cache_file_name(asset_id))).skip(1),
        (world.removable)(cache_file_name(asset_id)) ==> check_status(asset_id, true, world)
            == check_status(asset_id, true, world.without(cache_file_name(asset_id))),
{
    let path = cache_file_name(asset_id);
    let script = check_script(asset_id, true, world);
    let stat = ActionView::Stat { path };
    let remove = ActionView::Remove { path };
    if (world.removable)(path) {
        let gone = world.without(path);
        let rest = collection_hop(asset_id, true, gone);
        assert(classify((gone.stat)(path)) is Absent);
        assert(check_script(asset_id, true, gone) =~= seq![stat] + rest);
        assert(check_script(asset_id, true, gone).skip(1) =~= rest);
        assert(script =~= seq![stat, remove] + rest);
        assert(rest.len() >= 2);
        assert(script.last() == rest.last());
        assert(check_script(asset_id, true, gone).last() == rest.last());
    } else {
        assert(script =~= seq![stat, remove, reply(IconStatus::InternalError)]);
    }
}

/// A forced refresh where the only file among the candidates is a marker at
/// the asset's own path, of whatever age: the marker is deleted, a fetch is
/// triggered and the client is told `Accepted`.
pub proof fn lemma_forced_refresh_of_lone_marker(asset_id: Seq<char>, world: World)
    requires
        classify((world.stat)(cache_file_name(asset_id))) is NegativeCached,
        (world.removable)(cache_file_name(asset_id)),
        forall|path: Seq<char>|
            path != cache_file_name(asset_id) ==> classify(#[trigger] (world.stat)(path))
                is Absent,
    ensures
        check_script(asset_id, true, world)[1] == (ActionView::Remove {
            path: cache_file_name(asset_id),
        }),
        check_script(asset_id, true, world).last() is Fetch,
        check_status(asset_id, true, world) == IconStatus::Accepted,
{
    let own = cache_file_name(asset_id);
    let gone = world.without(own);
    assert forall|path: Seq<char>| classify(#[trigger] (gone.stat)(path)) is Absent by {
        if path != own {
            assert(classify((world.stat)(path)) is Absent);
        }
    }
    lemma_unseen_asset_is_fetched(asset_id, true, gone);
    lemma_forced_refresh_of_own_marker(asset_id, world);
}

/// Whether a file of known state lies at `path`: an icon, or a marker whose
/// age can be told.
pub open spec fn holds_file(world: World, path: Seq<char>) -> bool {
    classify((world.stat)(path)) is Present || classify((world.stat)(path)) is NegativeCached
}

/// A candidate that a forced refresh settles with a fetch over a file has
/// deleted the file just before.
proof fn lemma_settlement_deletes_first(
    candidate: Seq<char>,
    at: Seq<char>,
    world: World,
    id: Seq<char>,
    path: Seq<char>,
)
    requires
        settlement(candidate, at, classify((world.stat)(at)), true, world).last() == (
        ActionView::Fetch { asset_id: id, path }),
        holds_file(world, path),
    ensures
        settlement(candidate, at, classify((world.stat)(at)), true, world) == seq![
            ActionView::Remove { path },
            ActionView::Fetch { asset_id: id, path },
        ],
        (world.removable)(path),
{
}

/// The hops beyond the own path, under a forced refresh that ends with a
/// fetch over a file: the file was deleted just before. The own path holds
/// no file by then.
proof fn lemma_hops_delete_first(asset_id: Seq<char>, world: World, id: Seq<char>, path: Seq<char>)
    requires
        collection_hop(asset_id, true, world).last() == (ActionView::Fetch { asset_id: id, path }),
        holds_file(world, path),
        !holds_file(world, cache_file_name(asset_id)),
    ensures
        collection_hop(asset_id, true, world).len() >= 3,
        collection_hop(asset_id, true, world)[collection_hop(asset_id, true, world).len() - 2] == (
        ActionView::Remove { path }),
        (world.removable)(path),
{
    let hop = collection_hop(asset_id, true, world);
    let shared = icon_path(asset_id, true, (world.collection)(asset_id));
    let entry = classify((world.stat)(shared));
    let find = ActionView::FindCollection { asset_id };
    let stat = ActionView::Stat { path: shared };
    lemma_underlying_hop_in_order(asset_id, true, world);
    lemma_settlement_in_order(asset_id, shared, entry, true, world);
    if shared != cache_file_name(asset_id) && verdict(entry, true) != Verdict::Missing {
        let tail = settlement(asset_id, shared, entry, true, world);
        lemma_order_kept(stat, tail);
        lemma_order_kept(find, seq![stat] + tail);
        lemma_settlement_deletes_first(asset_id, shared, world, id, path);
        assert(hop =~= seq![find, stat, ActionView::Remove { path }, ActionView::Fetch {
            asset_id: id,
            path,
        }]);
    } else {
        let under = underlying_hop(asset_id, true, world);
        let seek = ActionView::FindUnderlying { asset_id };
        if shared == cache_file_name(asset_id) {
            lemma_order_kept(find, under);
        } else {
            lemma_order_kept(stat, under);
            lemma_order_kept(find, seq![stat] + under);
        }
        assert(under.last() == hop.last());
        match (world.underlying)(asset_id) {
            Some(other) => {
                let at = cache_file_name(other);
                let tail = settlement(other, at, classify((world.stat)(at)), true, world);
                lemma_settlement_in_order(other, at, classify((world.stat)(at)), true, world);
                lemma_order_kept(ActionView::Stat { path: at }, tail);
                lemma_order_kept(seek, seq![ActionView::Stat { path: at }] + tail);
                lemma_settlement_deletes_first(other, at, world, id, path);
                assert(under =~= seq![seek, ActionView::Stat { path: at }, ActionView::Remove {
                    path,
                }, ActionView::Fetch { asset_id: id, path }]);
                if shared == cache_file_name(asset_id) {
                    assert(hop =~= seq![find] + under);
                } else {
                    assert(hop =~= seq![find, stat] + under);
                }
            },
            None => {
                assert(under =~= seq![seek, ActionView::Fetch {
                    asset_id,
                    path: cache_file_name(asset_id),
                }]);
            },
        }
    }
}

/// A forced refresh that ends with a fetch into a path where a file of known
/// state lay has deleted that file before.
pub proof fn lemma_forced_refresh_deletes_first(
    asset_id: Seq<char>,
    world: World,
    id: Seq<char>,
    path: Seq<char>,
)
    requires
        check_script(asset_id, true, world).last() == (ActionView::Fetch { asset_id: id, path }),
        holds_file(world, path),
    ensures
        (world.removable)(path),
        exists|i: int|
            0 <= i < check_script(asset_id, true, world).len() - 1 && #[trigger] check_script(
                asset_id,
                true,
                world,
            )[i] == (ActionView::Remove { path }),
{
    let script = check_script(asset_id, true, world);
    let own = cache_file_name(asset_id);
    let entry = classify((world.stat)(own));
    let stat = ActionView::Stat { path: own };
    let remove = ActionView::Remove { path: own };
    if entry.is_usable() {
        // The own icon went just before the fetch.
        lemma_settlement_deletes_first(asset_id, own, world, id, path);
        assert(script =~= seq![stat, ActionView::Remove { path }, ActionView::Fetch {
            asset_id: id,
            path,
        }]);
        assert(script[1] == (ActionView::Remove { path }));
    } else if clears_marker(entry, true) {
        lemma_forced_refresh_of_own_marker(asset_id, world);
        assert((world.removable)(own));
        let gone = world.without(own);
        let hop = collection_hop(asset_id, true, gone);
        lemma_collection_hop_in_order(asset_id, true, gone);
        assert(script =~= seq![stat, remove] + hop);
        assert(script.last() == hop.last());
        if path == own {
            // The marker at the own path went right after it was found.
            assert(script[1] == (ActionView::Remove { path }));
        } else {
            lemma_hops_delete_first(asset_id, gone, id, path);
            assert(script[script.len() - 2] == hop[hop.len() - 2]);
        }
    } else {
        let hop = collection_hop(asset_id, true, world);
        lemma_collection_hop_in_order(asset_id, true, world);
        lemma_order_kept(stat, hop);
        lemma_hops_delete_first(asset_id, world, id, path);
        assert(script[script.len() - 2] == hop[hop.len() - 2]);
    }
}

/// The negative-cache window, for a whole check that comes down to the
/// underlying asset: with the marker at that asset's path, the client is told
/// `NotFound` for twelve hours and `Accepted` from then on, when the marker
/// is deleted and the icon fetched again.
pub proof fn lemma_negative_cache_window(
    asset_id: Seq<char>,
    world: World,
    underlying: Seq<char>,
    age_secs: u64,
)
    requires
        comes_down_to(asset_id, false, world, underlying),
        underlying_entry(asset_id, false, world, underlying) == (Probe::NegativeCached {
            age_secs,
        }),
    ensures
        age_secs < 12 * 60 * 60 ==> check_status(asset_id, false, world) == IconStatus::NotFound,
        age_secs >= 12 * 60 * 60 ==> check_status(asset_id, false, world) == IconStatus::Accepted,
        age_secs >= 12 * 60 * 60 ==> check_script(asset_id, false, world).last() == (
        ActionView::Fetch { asset_id: underlying, path: cache_file_name(underlying) }),
{
    lemma_check_end(asset_id, false, world);
}

/// An expired marker at the collection's path is deleted and the icon is
/// fetched again, into that path.
pub proof fn lemma_expired_collection_marker(asset_id: Seq<char>, world: World, age_secs: u64)
    requires
        !classify((world.stat)(cache_file_name(asset_id))).is_usable(),
        icon_path(asset_id, true, (world.collection)(asset_id)) != cache_file_name(asset_id),
        classify((world.stat)(icon_path(asset_id, true, (world.collection)(asset_id)))) == (
        Probe::NegativeCached { age_secs }),
        age_secs >= 12 * 60 * 60,
    ensures
        check_status(asset_id, false, world) == IconStatus::Accepted,
        check_script(asset_id, false, world).last() == (ActionView::Fetch {
            asset_id,
            path: icon_path(asset_id, true, (world.collection)(asset_id)),
        }),
{
    lemma_check_end(asset_id, false, world);
}

/// A check reports an icon as usable exactly where no refresh is forced and
/// the first candidate to settle the request holds content. A zero-length
/// file never counts as an icon.
pub proof fn lemma_found_iff(asset_id: Seq<char>, force_refresh: bool, world: World)
    ensures
        check_status(asset_id, force_refresh, world) == IconStatus::Found <==> !force_refresh && ({
            let own = cache_file_name(asset_id);
            let shared = icon_path(asset_id, true, (world.collection)(asset_id));
            ||| classify((world.stat)(own)) is Present
            ||| (shared != own && classify((world.stat)(shared)) is Present)
            ||| ((world.underlying)(asset_id) matches Some(id) && comes_down_to(
                asset_id,
                force_refresh,
                world,
                id,
            ) && classify((world.stat)(cache_file_name(id))) is Present)
        }),
{
    lemma_check_end(asset_id, force_refresh, world);
}

/// A check ends with `NotFound` exactly where it comes down to an underlying
/// asset whose icon is found missing: its path cannot be inspected, or holds
/// a marker that is not due for a retry.
pub proof fn lemma_not_found_iff(asset_id: Seq<char>, force_refresh: bool, world: World)
    ensures
        check_status(asset_id, force_refresh, world) == IconStatus::NotFound <==> (
        (world.underlying)(asset_id) matches Some(id) && comes_down_to(
            asset_id,
            force_refresh,
            world,
            id,
        ) && verdict(underlying_entry(asset_id, force_refresh, world, id), force_refresh)
            == Verdict::Missing),
{
    lemma_check_end(asset_id, force_refresh, world);
}

/// A check ends with `Accepted` exactly where it ends with a fetch, and never
/// with `NotModified`.
pub proof fn lemma_accepted_iff_fetch(asset_id: Seq<char>, force_refresh: bool, world: World)
    ensures
        check_status(asset_id, force_refresh, world) == IconStatus::Accepted <==> check_script(
            asset_id,
            force_refresh,
            world,
        ).last() is Fetch,
        check_status(asset_id, force_refresh, world) != IconStatus::NotModified,
{
    lemma_check_end(asset_id, force_refresh, world);
}

/// What a check deletes and fetches. A file is deleted as the last act
/// before the check ends; a forced refresh may before that have deleted the
/// marker at the asset's own path, right after it found it. Nothing else is
/// deleted, and a fetch is triggered only as the act that ends the check.
pub proof fn lemma_removals(asset_id: Seq<char>, force_refresh: bool, world: World)
    ensures
        forall|i: int|
            0 <= i < check_script(asset_id, force_refresh, world).len() && (
            #[trigger] check_script(asset_id, force_refresh, world)[i]) is Remove ==> {
                ||| i == check_script(asset_id, force_refresh, world).len() - 2
                ||| (i == 1 && force_refresh && check_script(asset_id, force_refresh, world)[i]
                    == (ActionView::Remove { path: cache_file_name(asset_id) }) && classify(
                    (world.stat)(cache_file_name(asset_id)),
                ) is NegativeCached)
            },
        forall|i: int|
            0 <= i < check_script(asset_id, force_refresh, world).len() && (
            #[trigger] check_script(asset_id, force_refresh, world)[i]) is Fetch ==> i
                == check_script(asset_id, force_refresh, world).len() - 1,
{
    let script = check_script(asset_id, force_refresh, world);
    lemma_script_shape(asset_id, force_refresh, world);
    lemma_script_ends(asset_id, force_refresh, world);
    let rest = script.skip(2);
    if !ends_in_order(script) {
        assert forall|i: int| 0 <= i < script.len() && (#[trigger] script[i]) is Remove implies i
            == script.len() - 2 || i == 1 by {
            if i >= 2 {
                assert(script[i] == rest[i - 2]);
            }
        }
    }
    assert forall|i: int| 0 <= i < script.len() && (#[trigger] script[i]) is Fetch implies i
        == script.len() - 1 by {
        assert(script[i].is_final());
    }
}

/// An asset that was never seen before is fetched: where none of its
/// candidates has a cache file, a check ends with a fetch and the client is
/// told `Accepted`.
pub proof fn lemma_unseen_asset_is_fetched(asset_id: Seq<char>, force_refresh: bool, world: World)
    requires
        forall|path: Seq<char>| classify(#[trigger] (world.stat)(path)) is Absent,
    ensures
        check_script(asset_id, force_refresh, world).last() is Fetch,
        check_status(asset_id, force_refresh, world) == IconStatus::Accepted,
{
    let own = cache_file_name(asset_id);
    let shared = icon_path(asset_id, true, (world.collection)(asset_id));
    assert(classify((world.stat)(own)) is Absent);
    assert(classify((world.stat)(shared)) is Absent);
    match (world.underlying)(asset_id) {
        Some(id) => {
            assert(classify((world.stat)(cache_file_name(id))) is Absent);
        },
        None => {},
    }
}

} // verus!
