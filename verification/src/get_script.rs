//! What a whole read comes to.
//!
//! Played against a frozen world, the steps of a read add up to a script that
//! can be written down directly; the laws of the read are stated and proved
//! of that script.

use crate::get::{get_first_action, get_start, read_verdict, GetStage, GetState, ReadVerdict};
use crate::path::{cache_file_name, icon_path};
use crate::probe::classify;
use crate::protocol::{bare, reply, ActionView, ResponseView};
use crate::respond::{content_response, fingerprint, lemma_token_match, token_matches};
use crate::status::IconStatus;
use crate::world::World;
use vstd::prelude::*;
use vstd::utf8::encode_utf8;

verus! {

/// The actions of a read that is played against `world`, from the pending
/// `action` on: each action that does not end the request is answered by the
/// world and the answer is fed to the transition. At most `steps` transitions
/// are taken.
pub open spec fn get_run(state: GetState, action: ActionView, world: World, steps: nat) -> Seq<
    ActionView,
>
    decreases steps,
{
    if steps == 0 || action.is_final() {
        seq![action]
    } else {
        let (next, then) = state.step(world.report(action));
        seq![action] + get_run(next, then, world, (steps - 1) as nat)
    }
}

/// The second half of a read: the collection's icon is consulted where its
/// path is not the asset's own, and what it yields is the answer.
pub open spec fn collection_read(asset_id: Seq<char>, token: Option<Seq<char>>, world: World) -> Seq<
    ActionView,
> {
    let path = icon_path(asset_id, true, (world.collection)(asset_id));
    seq![ActionView::FindCollection { asset_id }] + if path == cache_file_name(asset_id) {
        seq![reply(IconStatus::NotFound)]
    } else {
        seq![ActionView::Stat { path }] + match read_verdict(classify((world.stat)(path))) {
            ReadVerdict::Broken => seq![reply(IconStatus::InternalError)],
            ReadVerdict::Missing => seq![reply(IconStatus::NotFound)],
            ReadVerdict::Read => seq![
                ActionView::Read { path },
                ActionView::Reply { response: content_response((world.content)(path), token) },
            ],
        }
    }
}

/// Everything a read of `asset_id` does in `world`, in order. The asset's own
/// icon is the answer unless there is none to serve; only then is the
/// collection consulted.
pub open spec fn get_script(asset_id: Seq<char>, token: Option<Seq<char>>, world: World) -> Seq<
    ActionView,
> {
    let path = cache_file_name(asset_id);
    seq![ActionView::Stat { path }] + match read_verdict(classify((world.stat)(path))) {
        ReadVerdict::Broken => seq![reply(IconStatus::InternalError)],
        ReadVerdict::Missing => collection_read(asset_id, token, world),
        ReadVerdict::Read => {
            let response = content_response((world.content)(path), token);
            seq![ActionView::Read { path }] + if response.status == IconStatus::NotFound {
                collection_read(asset_id, token, world)
            } else {
                seq![ActionView::Reply { response }]
            }
        },
    }
}

/// The answer a read of `asset_id` ends with in `world`.
pub open spec fn get_response(asset_id: Seq<char>, token: Option<Seq<char>>, world: World)
    -> ResponseView {
    get_script(asset_id, token, world).last()->response
}

/// Whether `path` holds an icon with content `content` in `world`.
pub open spec fn holds_icon(world: World, path: Seq<char>, content: Seq<u8>) -> bool {
    &&& classify((world.stat)(path)) is Present
    &&& (world.content)(path) == Some(content)
    &&& content.len() > 0
}

/// Whether a read finds nothing to serve at `path` in `world`.
pub open spec fn holds_nothing(world: World, path: Seq<char>) -> bool {
    read_verdict(classify((world.stat)(path))) == ReadVerdict::Missing
}

/// From the lookup of the collection on, a read does what
/// [`collection_read`] says.
proof fn lemma_run_collection_read(state: GetState, world: World, steps: nat)
    requires
        steps >= 3,
        state.stage == GetStage::Collection,
        state.wf(),
    ensures
        get_run(state, ActionView::FindCollection { asset_id: state.asset_id }, world, steps)
            == collection_read(state.asset_id, state.token, world),
{
    reveal_with_fuel(get_run, 4);
    assert(get_run(state, ActionView::FindCollection { asset_id: state.asset_id }, world, steps)
        =~= collection_read(state.asset_id, state.token, world));
}

/// A read that is played against a world does what [`get_script`] says, and
/// five transitions are enough for it to end with a reply.
pub proof fn lemma_get_follows_script(asset_id: Seq<char>, token: Option<Seq<char>>, world: World)
    ensures
        get_run(get_start(asset_id, token), get_first_action(asset_id), world, 5) == get_script(
            asset_id,
            token,
            world,
        ),
        get_script(asset_id, token, world).last() is Reply,
        forall|i: int|
            0 <= i < get_script(asset_id, token, world).len() - 1 ==> !(#[trigger] get_script(
                asset_id,
                token,
                world,
            )[i]).is_final(),
{
    reveal_with_fuel(get_run, 3);
    let state = get_start(asset_id, token);
    let first = get_first_action(asset_id);
    let path = cache_file_name(asset_id);
    match read_verdict(classify((world.stat)(path))) {
        ReadVerdict::Broken => {},
        ReadVerdict::Missing => {
            let (next, then) = state.step(world.report(first));
            lemma_run_collection_read(next, world, 4);
        },
        ReadVerdict::Read => {
            let (next, then) = state.step(world.report(first));
            let (after, last) = next.step(world.report(then));
            if content_response((world.content)(path), token).status == IconStatus::NotFound {
                lemma_run_collection_read(after, world, 3);
            }
        },
    }
    assert(get_run(state, first, world, 5) =~= get_script(asset_id, token, world));
}

/// Own-icon priority: where the asset's own icon is cached, a read answers
/// from its bytes, whatever the collection holds. Without a fingerprint from
/// the client the answer is the content in full.
pub proof fn lemma_own_icon_first(
    asset_id: Seq<char>,
    token: Option<Seq<char>>,
    world: World,
    content: Seq<u8>,
)
    requires
        holds_icon(world, cache_file_name(asset_id), content),
    ensures
        get_response(asset_id, token, world) == content_response(Some(content), token),
        token is None ==> get_response(asset_id, token, world) == (ResponseView {
            status: IconStatus::Found,
            fingerprint: Some(fingerprint(content)),
            body: Some(content),
        }),
{
}

/// Fallback: where the asset has no icon of its own and its collection's
/// icon, at another path, is cached, a read answers from the collection
/// icon's bytes. Without a fingerprint from the client the answer is the
/// content in full.
pub proof fn lemma_collection_fallback(
    asset_id: Seq<char>,
    token: Option<Seq<char>>,
    world: World,
    content: Seq<u8>,
)
    requires
        holds_nothing(world, cache_file_name(asset_id)),
        icon_path(asset_id, true, (world.collection)(asset_id)) != cache_file_name(asset_id),
        holds_icon(world, icon_path(asset_id, true, (world.collection)(asset_id)), content),
    ensures
        get_response(asset_id, token, world) == content_response(Some(content), token),
        token is None ==> get_response(asset_id, token, world) == (ResponseView {
            status: IconStatus::Found,
            fingerprint: Some(fingerprint(content)),
            body: Some(content),
        }),
{
}

/// Nothing cached: where neither the asset nor its collection has an icon
/// to serve, a read ends with `NotFound`.
pub proof fn lemma_nothing_cached(asset_id: Seq<char>, token: Option<Seq<char>>, world: World)
    requires
        holds_nothing(world, cache_file_name(asset_id)),
        holds_nothing(world, icon_path(asset_id, true, (world.collection)(asset_id))),
    ensures
        get_response(asset_id, token, world) == bare(IconStatus::NotFound),
{
}

/// Conditional read: a client that sends the fingerprint of the cached
/// content is told `NotModified` and sent no body.
pub proof fn lemma_fingerprint_match(asset_id: Seq<char>, world: World, content: Seq<u8>)
    requires
        holds_icon(world, cache_file_name(asset_id), content),
    ensures
        get_response(asset_id, Some(fingerprint(content)), world) == (ResponseView {
            status: IconStatus::NotModified,
            fingerprint: Some(fingerprint(content)),
            body: None,
        }),
{
    lemma_token_match(content, fingerprint(content));
}

/// Conditional read: a client that sends anything that does not stand for the
/// fingerprint of the cached content is sent the content in full. What is
/// not thirty-two bytes long never stands for a fingerprint.
pub proof fn lemma_fingerprint_mismatch(
    asset_id: Seq<char>,
    world: World,
    content: Seq<u8>,
    token: Seq<char>,
)
    requires
        holds_icon(world, cache_file_name(asset_id), content),
    ensures
        !token_matches(token, fingerprint(content)) || encode_utf8(token).len() != 32
            ==> get_response(asset_id, Some(token), world) == (ResponseView {
            status: IconStatus::Found,
            fingerprint: Some(fingerprint(content)),
            body: Some(content),
        }),
{
    lemma_token_match(content, token);
}

/// A read never serves a marker: a body, where one is sent, is not empty and
/// comes with its fingerprint.
pub proof fn lemma_body_is_content(asset_id: Seq<char>, token: Option<Seq<char>>, world: World)
    ensures
        get_response(asset_id, token, world).body matches Some(body) ==> body.len() > 0
            && get_response(asset_id, token, world).status == IconStatus::Found
            && get_response(asset_id, token, world).fingerprint == Some(fingerprint(body)),
{
}

} // verus!
