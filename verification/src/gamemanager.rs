//! The process-wide directory of sessions: opaque game identifiers
//! mapped to sessions, created on demand and reaped once drained.
//!
//! Identifiers are unique at any instant; creating a session under an
//! identifier that is already taken overwrites the previous session
//! (last writer wins — the identifier generator makes collisions
//! negligible, so an overwrite is tolerated, not fatal).

use crate::game::{Game, game_init};
use vstd::prelude::*;

verus! {

/// A session worth keeping: at least one seat is still occupied.
/// Spectators alone do not keep a session alive.
pub open spec fn session_alive(e: (String, Game)) -> bool {
    !(e.1.players@[0] is None && e.1.players@[1] is None)
}

/// `session_alive` as a value, for use with `Seq::filter`.
pub open spec fn alive_pred() -> spec_fn((String, Game)) -> bool {
    |e: (String, Game)| session_alive(e)
}

/// The directory itself: identifier/session pairs, in creation order.
pub struct GameManager {
    pub games: Vec<(String, Game)>,
}

impl GameManager {
    /// Validity: identifiers are pairwise distinct and every session has
    /// its two seat slots.
    pub open spec fn wf(self) -> bool {
        &&& forall|i: int, j: int|
            0 <= i < j < self.games@.len() ==> self.games@[i].0@ != self.games@[j].0@
        &&& forall|i: int| 0 <= i < self.games@.len() ==> (#[trigger] self.games@[i].1).wf()
    }

    /// Some entry carries identifier `id`.
    pub open spec fn has_id(self, id: Seq<char>) -> bool {
        exists|i: int| 0 <= i < self.games@.len() && (#[trigger] self.games@[i]).0@ == id
    }

    /// Start an empty directory. (The periodic reaper that calls
    /// `remove_dead_games` is scheduled by the process around it.)
    pub fn init() -> (m: GameManager)
        ensures
            m.wf(),
            m.games@.len() == 0,
    {
        GameManager { games: Vec::new() }
    }

    /// The position of the entry carrying `id`, if any.
    pub(crate) fn find(&self, id: &String) -> (r: Option<usize>)
        requires
            self.wf(),
        ensures
            match r {
                Some(i) => i < self.games@.len() && self.games@[i as int].0@ == id@,
                None => !self.has_id(id@),
            },
    {
        let mut k: usize = 0;
        while k < self.games.len()
            invariant
                k <= self.games@.len(),
                forall|j: int| 0 <= j < k ==> (#[trigger] self.games@[j]).0@ != id@,
            decreases self.games@.len() - k,
        {
            let entry = vstd::std_specs::vec::vec_index(&self.games, k);
            if entry.0 == *id {
                return Some(k);
            }
            k = k + 1;
        }
        None
    }

    /// Create a brand-new session under `id`. If an entry with that
    /// identifier already exists it is overwritten in place; otherwise
    /// the new entry is appended.
    pub fn newgame(&mut self, id: String)
        requires
            old(self).wf(),
        ensures
            final(self).wf(),
            final(self).has_id(id@),
            if old(self).has_id(id@) {
                exists|i: int|
                    0 <= i < old(self).games@.len() && (#[trigger] old(self).games@[i]).0@ == id@
                        && final(self).games@.len() == old(self).games@.len()
                        && final(self).games@[i].0 == id && game_init(final(self).games@[i].1)
                        && (forall|j: int|
                        0 <= j < old(self).games@.len() && j != i ==> final(self).games@[j] == old(
                            self,
                        ).games@[j])
            } else {
                final(self).games@.len() == old(self).games@.len() + 1 && (forall|j: int|
                    0 <= j < old(self).games@.len() ==> final(self).games@[j] == old(
                        self,
                    ).games@[j]) && final(self).games@[old(self).games@.len() as int].0 == id
                    && game_init(final(self).games@[old(self).games@.len() as int].1)
            },
    {
        let ghost idview = id@;
        match self.find(&id) {
            Some(i) => {
                self.games.set(i, (id, Game::new()));
                proof {
                    assert((self.games@[i as int]).0@ == idview);
                }
            },
            None => {
                let ghost len = self.games@.len() as int;
                self.games.push((id, Game::new()));
                proof {
                    assert((self.games@[len]).0@ == idview);
                }
            },
        }
    }

    /// A shared handle to the session under `id`, or nothing: only the
    /// directory's read access is needed, independent of any session's
    /// own lock.
    pub fn getgame(&self, id: String) -> (r: Option<&Game>)
        requires
            self.wf(),
        ensures
            match r {
                Some(g) => exists|i: int|
                    0 <= i < self.games@.len() && (#[trigger] self.games@[i]).0@ == id@
                        && *g == self.games@[i].1,
                None => !self.has_id(id@),
            },
    {
        match self.find(&id) {
            Some(i) => Some(&vstd::std_specs::vec::vec_index(&self.games, i).1),
            None => None,
        }
    }

    /// The periodic sweep: every drained session (both seats empty) is
    /// removed, every session with at least one occupied seat survives,
    /// and the surviving entries keep their order.
    pub fn remove_dead_games(&mut self)
        requires
            old(self).wf(),
        ensures
            final(self).wf(),
            final(self).games@ == old(self).games@.filter(alive_pred()),
    {
        let mut src: Vec<(String, Game)> = Vec::new();
        core::mem::swap(&mut src, &mut self.games);
        let ghost all = src@;
        let ghost mut processed: int = 0;
        proof {
            reveal_with_fuel(Seq::filter, 2);
            assert(all.take(0).filter(alive_pred()) =~= Seq::<(String, Game)>::empty());
        }
        while src.len() > 0
            invariant
                0 <= processed <= all.len(),
                src@ == all.skip(processed),
                self.games@ == all.take(processed).filter(alive_pred()),
                forall|i: int, j: int|
                    0 <= i < j < all.len() ==> all[i].0@ != all[j].0@,
                forall|i: int| 0 <= i < all.len() ==> (#[trigger] all[i].1).wf(),
                forall|i: int|
                    0 <= i < self.games@.len() ==> exists|p: int|
                        0 <= p < processed && all[p] == #[trigger] self.games@[i],
                self.wf(),
            decreases src@.len(),
        {
            let e = src.remove(0);
            proof {
                assert(e == all[processed]);
                assert(src@ =~= all.skip(processed + 1));
            }
            let ghost kept_before = self.games@;
            let keep = !e.1.is_empty();
            if keep {
                self.games.push(e);
            }
            proof {
                reveal_with_fuel(Seq::filter, 2);
                let pred = alive_pred();
                assert(all.take(processed + 1).drop_last() =~= all.take(processed));
                assert(all.take(processed + 1).last() == all[processed]);
                assert(all.take(processed + 1).filter(pred) == if pred(all[processed]) {
                    all.take(processed).filter(pred).push(all[processed])
                } else {
                    all.take(processed).filter(pred)
                });
                if keep {
                    assert(self.games@ =~= kept_before.push(all[processed]));
                    assert forall|i: int, j: int|
                        0 <= i < j < self.games@.len() implies self.games@[i].0@
                        != self.games@[j].0@ by {
                        if j == self.games@.len() - 1 {
                            let p = choose|p: int|
                                0 <= p < processed && all[p] == kept_before[i];
                            assert(all[p].0@ != all[processed].0@);
                        }
                    }
                }
                processed = processed + 1;
            }
        }
        proof {
            assert(all.take(processed) =~= all);
        }
    }
}

} // verus!
