//! The decision logic behind each HTTP entry point: look the session up
//! by its identifier, delegate to it, and classify the outcome for the
//! HTTP layer. The HTTP layer itself (routing, redirects, response
//! bodies, the per-connection channels) stays outside the core.

use crate::game::{
    addmove_accepts, addmove_effect, join_effect, rematch_auth, rematch_effect, show_effect,
    Game,
};
use crate::gamemanager::GameManager;
use vstd::prelude::*;

verus! {

/// The outcome classes the HTTP layer turns into status codes.
#[derive(Copy, Clone, PartialEq, Eq, Structural, Debug)]
pub enum RouteResponse {
    /// The operation succeeded.
    Accepted,
    /// The session refused the request (ordinary client behaviour:
    /// stale credential, illegal move, missing opponent).
    Rejected,
    /// No session carries the given identifier.
    NotFound,
}

/// Every directory entry except position `i` is unchanged, and the
/// entry at `i` kept its identifier.
pub open spec fn only_entry_changed(pre: GameManager, post: GameManager, i: int) -> bool {
    &&& post.games@.len() == pre.games@.len()
    &&& forall|j: int|
        0 <= j < pre.games@.len() && j != i ==> post.games@[j] == #[trigger] pre.games@[j]
    &&& post.games@[i].0 == pre.games@[i].0
}

/// Create a fresh session under a newly generated 8-character game
/// identifier and hand the identifier back; the HTTP layer redirects
/// the client to that game's page.
pub fn newgame(gm: &mut GameManager) -> (id: String)
    requires
        old(gm).wf(),
    ensures
        final(gm).wf(),
        id@.len() == 8,
        final(gm).has_id(id@),
{
    let id = crate::game::fresh_token(8);
    gm.newgame(id.clone());
    id
}

/// Admit the connection on channel `chan` into the session under `id`:
/// the events for the newcomer (and, on a ready transition, for the
/// seats) are queued in that session's outbox. Returns `false` iff no
/// session carries `id`.
pub fn game_events(gm: &mut GameManager, id: String, chan: u64, alive0: bool, alive1: bool) -> (r:
    bool)
    requires
        old(gm).wf(),
    ensures
        final(gm).wf(),
        !old(gm).has_id(id@) ==> !r && *final(gm) == *old(gm),
        old(gm).has_id(id@) ==> r && exists|i: int|
            #![auto]
            0 <= i < old(gm).games@.len() && old(gm).games@[i].0@ == id@ && only_entry_changed(
                *old(gm),
                *final(gm),
                i,
            ) && join_effect(old(gm).games@[i].1, final(gm).games@[i].1, chan, alive0, alive1),
{
    let found = gm.find(&id);
    match found {
        None => false,
        Some(i) => {
            let entry = vstd::std_specs::vec::vec_index_mut(&mut gm.games, i);
            entry.1.join(chan, alive0, alive1);
            proof {
                assert(only_entry_changed(*old(gm), *gm, i as int));
                assert(join_effect(
                    old(gm).games@[i as int].1,
                    gm.games@[i as int].1,
                    chan,
                    alive0,
                    alive1,
                ));
            }
            true
        },
    }
}

/// Submit the move `newmove` with credential `cred` to the session
/// under `id`; on acceptance the session's broadcast fan-out is queued
/// as well, so every connected party sees the new board.
pub fn addmove(
    gm: &mut GameManager,
    id: String,
    newmove: usize,
    cred: String,
    alive0: bool,
    alive1: bool,
) -> (r: RouteResponse)
    requires
        old(gm).wf(),
    ensures
        final(gm).wf(),
        !old(gm).has_id(id@) ==> r == RouteResponse::NotFound && *final(gm) == *old(gm),
        old(gm).has_id(id@) ==> exists|i: int|
            #![auto]
            0 <= i < old(gm).games@.len() && old(gm).games@[i].0@ == id@ && only_entry_changed(
                *old(gm),
                *final(gm),
                i,
            ) && if addmove_accepts(old(gm).games@[i].1, newmove, cred@, alive0, alive1) {
                r == RouteResponse::Accepted && exists|mid: Game|
                    addmove_effect(old(gm).games@[i].1, mid, newmove, cred@, alive0, alive1)
                        && show_effect(mid, final(gm).games@[i].1)
            } else {
                r == RouteResponse::Rejected && addmove_effect(
                    old(gm).games@[i].1,
                    final(gm).games@[i].1,
                    newmove,
                    cred@,
                    alive0,
                    alive1,
                )
            },
{
    let found = gm.find(&id);
    match found {
        None => RouteResponse::NotFound,
        Some(i) => {
            let entry = vstd::std_specs::vec::vec_index_mut(&mut gm.games, i);
            let accepted = entry.1.addmove(newmove, cred, alive0, alive1);
            if accepted {
                let ghost mid = entry.1;
                entry.1.show();
                proof {
                    assert(only_entry_changed(*old(gm), *gm, i as int));
                    assert(addmove_effect(
                        old(gm).games@[i as int].1,
                        mid,
                        newmove,
                        cred@,
                        alive0,
                        alive1,
                    ) && show_effect(mid, gm.games@[i as int].1));
                }
                RouteResponse::Accepted
            } else {
                proof {
                    assert(only_entry_changed(*old(gm), *gm, i as int));
                    assert(addmove_effect(
                        old(gm).games@[i as int].1,
                        gm.games@[i as int].1,
                        newmove,
                        cred@,
                        alive0,
                        alive1,
                    ));
                }
                RouteResponse::Rejected
            }
        },
    }
}

/// Ask the session under `id` for a rematch authorized by `cred`.
pub fn rematch(gm: &mut GameManager, id: String, cred: String, alive0: bool, alive1: bool) -> (r:
    RouteResponse)
    requires
        old(gm).wf(),
    ensures
        final(gm).wf(),
        !old(gm).has_id(id@) ==> r == RouteResponse::NotFound && *final(gm) == *old(gm),
        old(gm).has_id(id@) ==> exists|i: int|
            #![auto]
            0 <= i < old(gm).games@.len() && old(gm).games@[i].0@ == id@ && only_entry_changed(
                *old(gm),
                *final(gm),
                i,
            ) && rematch_effect(old(gm).games@[i].1, final(gm).games@[i].1, cred@, alive0, alive1)
                && r == (if rematch_auth(old(gm).games@[i].1, cred@, alive0, alive1) {
                RouteResponse::Accepted
            } else {
                RouteResponse::Rejected
            }),
{
    let found = gm.find(&id);
    match found {
        None => RouteResponse::NotFound,
        Some(i) => {
            let entry = vstd::std_specs::vec::vec_index_mut(&mut gm.games, i);
            let accepted = entry.1.rematch(cred, alive0, alive1);
            proof {
                assert(only_entry_changed(*old(gm), *gm, i as int));
                assert(rematch_effect(
                    old(gm).games@[i as int].1,
                    gm.games@[i as int].1,
                    cred@,
                    alive0,
                    alive1,
                ));
            }
            if accepted {
                RouteResponse::Accepted
            } else {
                RouteResponse::Rejected
            }
        },
    }
}

} // verus!
