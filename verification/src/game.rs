//! One game session: the authoritative board, the two player seats with
//! their credentials, the spectator list, and the join / health-check /
//! move / rematch / broadcast protocol.
//!
//! Connections are abstracted: a connected party is named by an opaque
//! channel handle (a `u64` chosen by the transport layer), the outcome of
//! a liveness probe on a seat's channel comes in as a boolean argument,
//! and every outbound event is appended to the session's `outbox` rather
//! than sent, so that the transport layer can perform the sends outside
//! the session's critical section.

use crate::tictactoe::{
    board_init, mark_of, opposite, winner_spec, Board, Player,
};
use vstd::prelude::*;

verus! {

/// Why an operation that needs a two-player-ready session refused.
#[derive(Copy, Clone, PartialEq, Eq, Structural, Debug)]
pub enum GameError {
    /// Fewer than two healthy seats remain after the liveness check.
    MissingPlayer,
    /// No seat is occupied at all.
    NoPlayers,
    /// The session's state was corrupted (a holder of its lock failed
    /// mid-update); the session is permanently failed. Never produced by
    /// the session logic itself — the lock lives with the transport layer.
    PoisonedMutex,
}

/// A seated player: their push-channel handle, the secret that
/// authorizes their moves, and an informational score counter.
#[derive(Debug)]
pub struct ActivePlayer {
    pub chan: u64,
    pub credentials: String,
    pub score: u64,
}

/// Relies on `nanoid::format` with nanoid's default URL alphabet and its
/// secure random source: the returned identifier has exactly `len`
/// characters, drawn at random. (`format` loops forever on length 0.)
#[verifier::external_body]
pub(crate) fn fresh_token(len: usize) -> (r: String)
    requires
        1 <= len,
    ensures
        r@.len() == len as nat,
{
    nanoid::format(nanoid::rngs::default, &nanoid::alphabet::SAFE, len)
}

impl ActivePlayer {
    /// Seat a newly admitted player on channel `chan` with a freshly
    /// generated 12-character credential.
    pub fn new(chan: u64) -> (p: ActivePlayer)
        ensures
            p.chan == chan,
            p.credentials@.len() == 12,
            p.score == 0,
    {
        ActivePlayer { chan, credentials: fresh_token(12), score: 0 }
    }
}

impl Clone for ActivePlayer {
    fn clone(&self) -> (r: Self)
        ensures
            r == *self,
    {
        ActivePlayer {
            chan: self.chan,
            credentials: self.credentials.clone(),
            score: self.score,
        }
    }
}

/// The status texts that a session pushes over a connection's channel;
/// the transport layer renders each as the wire's free-text notification.
#[derive(Copy, Clone, PartialEq, Eq, Structural, Debug)]
pub enum Notice {
    /// "You are a spectator in this game".
    Spectator,
    /// "You are Player X/O in this game".
    SeatAssigned(Player),
    /// Seat 0 at a ready transition: make the first move.
    ReadyFirstMove,
    /// Seat 1 at a ready transition: wait for the opponent's move.
    ReadyWaitForMove,
    /// It is this seat's turn, naming the side to move.
    YourTurn(Player),
    /// The other seat is to move.
    WaitForOpponent,
}

/// One queued outbound event: which channel it goes to and what it
/// carries. The credential and board payloads are not repeated here —
/// they are the addressed seat's credential and the board at the moment
/// the event was queued, which the transport layer snapshots when it
/// drains the outbox.
#[derive(Copy, Clone, PartialEq, Eq, Structural, Debug)]
pub enum Outgoing {
    /// The addressed seat's credential, sent once, privately.
    Credentials(u64),
    /// A free-text status notice.
    Notice(u64, Notice),
    /// The signal to switch the client into its in-game state.
    StartGame(u64),
    /// The current board snapshot with its outcome.
    BoardState(u64),
}

/// One game's authoritative state plus its connected parties. All of it
/// is a single mutual-exclusion domain: the transport layer wraps the
/// session in one lock and holds it only across these state transitions,
/// never across network sends (the sends are the drained `outbox`).
#[derive(Debug)]
pub struct Game {
    pub board: Board,
    /// The two seats, indexed 0/1 and mapped to marks X/O by index.
    pub players: Vec<Option<ActivePlayer>>,
    /// Channel handles of the admitted spectators.
    pub spectators: Vec<u64>,
    /// Set once the "game ready" notices have fired for the current
    /// pairing; guards against re-sending them on later joins.
    pub started: bool,
    /// Outbound events queued by the operations below, in send order.
    pub outbox: Vec<Outgoing>,
}

/// A freshly created session: empty board, no seats, no spectators.
pub open spec fn game_init(g: Game) -> bool {
    &&& board_init(g.board)
    &&& g.players@[0] is None
    &&& g.players@[1] is None
    &&& g.spectators@ == Seq::<u64>::empty()
    &&& !g.started
    &&& g.outbox@ == Seq::<Outgoing>::empty()
}

impl Game {
    /// Structural validity: a session always has exactly two seat slots.
    pub open spec fn wf(self) -> bool {
        self.players@.len() == 2
    }

    /// Seat `i` after the liveness probes `alive0`/`alive1`: a seat keeps
    /// its occupant only if it was occupied and its probe succeeded.
    pub open spec fn seat_after_probe(self, i: int, alive: bool) -> Option<ActivePlayer> {
        if self.players@[i] is Some && alive {
            self.players@[i]
        } else {
            None
        }
    }

    pub fn new() -> (g: Game)
        ensures
            g.wf(),
            game_init(g),
    {
        let mut players: Vec<Option<ActivePlayer>> = Vec::new();
        players.push(None);
        players.push(None);
        Game {
            board: Board::new(),
            players,
            spectators: Vec::new(),
            started: false,
            outbox: Vec::new(),
        }
    }

    /// True iff both seats are unoccupied (spectators do not count): an
    /// empty session retains no player state worth preserving, and the
    /// registry's reaper removes it.
    pub fn is_empty(&self) -> (r: bool)
        requires
            self.wf(),
        ensures
            r == (self.players@[0] is None && self.players@[1] is None),
    {
        self.players[0].is_none() && self.players[1].is_none()
    }

    /// The liveness check that every state-mutating operation runs first.
    /// `alive0`/`alive1` are the outcomes of a keepalive probe on the
    /// channel seated at 0/1 (ignored for an empty seat): a seat whose
    /// probe failed is cleared, credential and channel discarded, so a
    /// stale seat self-heals by eviction. Returns `Ok(true)` iff, after
    /// probing, both seats are occupied by healthy connections.
    pub fn healtchcheck(&mut self, alive0: bool, alive1: bool) -> (r: Result<bool, GameError>)
        requires
            old(self).wf(),
        ensures
            final(self).wf(),
            final(self).board == old(self).board,
            final(self).spectators == old(self).spectators,
            final(self).started == old(self).started,
            final(self).outbox == old(self).outbox,
            final(self).players@[0] == old(self).seat_after_probe(0, alive0),
            final(self).players@[1] == old(self).seat_after_probe(1, alive1),
            r == Ok::<bool, GameError>(
                final(self).players@[0] is Some && final(self).players@[1] is Some,
            ),
    {
        if self.players[0].is_some() && !alive0 {
            self.players.set(0, None);
        }
        if self.players[1].is_some() && !alive1 {
            self.players.set(1, None);
        }
        Ok(self.players[0].is_some() && self.players[1].is_some())
    }

    /// Combines the liveness check with a snapshot of both seats: the
    /// uniform fail-fast gate for move and rematch. `Ok` carries copies
    /// of the two seated players iff both seats are healthy after the
    /// probes; otherwise `Err(MissingPlayer)`.
    pub fn game_ok(&mut self, alive0: bool, alive1: bool) -> (r: Result<
        [ActivePlayer; 2],
        GameError,
    >)
        requires
            old(self).wf(),
        ensures
            final(self).wf(),
            final(self).board == old(self).board,
            final(self).spectators == old(self).spectators,
            final(self).started == old(self).started,
            final(self).outbox == old(self).outbox,
            final(self).players@[0] == old(self).seat_after_probe(0, alive0),
            final(self).players@[1] == old(self).seat_after_probe(1, alive1),
            ({
                let p0 = old(self).seat_after_probe(0, alive0);
                let p1 = old(self).seat_after_probe(1, alive1);
                if p0 is Some && p1 is Some {
                    r is Ok && r->Ok_0@ == seq![p0->0, p1->0]
                } else {
                    r == Err::<[ActivePlayer; 2], GameError>(GameError::MissingPlayer)
                }
            }),
    {
        let healthy = match self.healtchcheck(alive0, alive1) {
            Ok(b) => b,
            Err(e) => {
                return Err(e);
            },
        };
        if !healthy {
            return Err(GameError::MissingPlayer);
        }
        let p0 = self.players[0].as_ref().unwrap().clone();
        let p1 = self.players[1].as_ref().unwrap().clone();
        Ok([p0, p1])
    }
}

/// The events of the "game ready" transition: both seats get the start
/// signal, seat 0 (mark X) is told to make the first move, seat 1 to
/// wait for it.
pub open spec fn ready_msgs(c0: u64, c1: u64) -> Seq<Outgoing> {
    seq![
        Outgoing::StartGame(c0),
        Outgoing::Notice(c0, Notice::ReadyFirstMove),
        Outgoing::StartGame(c1),
        Outgoing::Notice(c1, Notice::ReadyWaitForMove),
    ]
}

impl Game {
    /// Fire the "game ready" notices exactly once per ready transition:
    /// only when both seats are occupied and the session has not been
    /// marked started since the seats were last (re)paired.
    fn check_ready(&mut self)
        requires
            old(self).wf(),
        ensures
            final(self).wf(),
            final(self).board == old(self).board,
            final(self).players == old(self).players,
            final(self).spectators == old(self).spectators,
            ({
                let fire = old(self).players@[0] is Some && old(self).players@[1] is Some
                    && !old(self).started;
                if fire {
                    final(self).started && final(self).outbox@ == old(self).outbox@ + ready_msgs(
                        old(self).players@[0]->0.chan,
                        old(self).players@[1]->0.chan,
                    )
                } else {
                    final(self).started == old(self).started && final(self).outbox == old(
                        self,
                    ).outbox
                }
            }),
    {
        if self.players[0].is_some() && self.players[1].is_some() && !self.started {
            self.started = true;
            let c0 = self.players[0].as_ref().unwrap().chan;
            let c1 = self.players[1].as_ref().unwrap().chan;
            let ghost before = self.outbox@;
            self.outbox.push(Outgoing::StartGame(c0));
            self.outbox.push(Outgoing::Notice(c0, Notice::ReadyFirstMove));
            self.outbox.push(Outgoing::StartGame(c1));
            self.outbox.push(Outgoing::Notice(c1, Notice::ReadyWaitForMove));
            proof {
                assert(self.outbox@ =~= before + ready_msgs(c0, c1));
            }
        }
    }
}

/// The events sent to a connection admitted as a spectator: the start
/// signal, the spectator notice, and the current board snapshot.
pub open spec fn spectator_msgs(chan: u64) -> Seq<Outgoing> {
    seq![
        Outgoing::StartGame(chan),
        Outgoing::Notice(chan, Notice::Spectator),
        Outgoing::BoardState(chan),
    ]
}

/// The events sent to a connection admitted into a seat: its private
/// credential and its seat-assignment notice.
pub open spec fn seat_msgs(chan: u64, side: Player) -> Seq<Outgoing> {
    seq![Outgoing::Credentials(chan), Outgoing::Notice(chan, Notice::SeatAssigned(side))]
}

/// A player freshly seated for channel `chan`: that channel, a newly
/// generated 12-character credential, score zero.
pub open spec fn fresh_seat(p: ActivePlayer, chan: u64) -> bool {
    p.chan == chan && p.credentials@.len() == 12 && p.score == 0
}

/// How `join` takes a session from `pre` to `post` when the connection
/// on channel `chan` is admitted and the liveness probes answered
/// `alive0`/`alive1`: dead seats are evicted first; if both seats are
/// then healthy the newcomer is appended as a spectator, otherwise it
/// fills the lowest-index empty seat with a fresh credential; and the
/// "game ready" notices fire iff both seats are now occupied and the
/// session was not already marked started.
pub open spec fn join_effect(pre: Game, post: Game, chan: u64, alive0: bool, alive1: bool) -> bool {
    let p0 = pre.seat_after_probe(0, alive0);
    let p1 = pre.seat_after_probe(1, alive1);
    &&& post.wf()
    &&& post.board == pre.board
    &&& if p0 is Some && p1 is Some {
        &&& post.players@[0] == p0
        &&& post.players@[1] == p1
        &&& post.spectators@ == pre.spectators@.push(chan)
        &&& post.started
        &&& if !pre.started {
            post.outbox@ == pre.outbox@ + spectator_msgs(chan) + ready_msgs(
                p0->0.chan,
                p1->0.chan,
            )
        } else {
            post.outbox@ == pre.outbox@ + spectator_msgs(chan)
        }
    } else {
        &&& post.spectators == pre.spectators
        &&& if p0 is None {
            &&& post.players@[0] is Some
            &&& fresh_seat(post.players@[0]->0, chan)
            &&& post.players@[1] == p1
            &&& if p1 is Some && !pre.started {
                post.started && post.outbox@ == pre.outbox@ + seat_msgs(chan, Player::X)
                    + ready_msgs(chan, p1->0.chan)
            } else {
                post.started == pre.started && post.outbox@ == pre.outbox@ + seat_msgs(
                    chan,
                    Player::X,
                )
            }
        } else {
            &&& post.players@[0] == p0
            &&& post.players@[1] is Some
            &&& fresh_seat(post.players@[1]->0, chan)
            &&& if !pre.started {
                post.started && post.outbox@ == pre.outbox@ + seat_msgs(chan, Player::O)
                    + ready_msgs(p0->0.chan, chan)
            } else {
                post.started == pre.started && post.outbox@ == pre.outbox@ + seat_msgs(
                    chan,
                    Player::O,
                )
            }
        }
    }
}

/// A move submission is accepted iff both seats are healthy after the
/// probes, the presented credential is the one of the seat whose turn it
/// is, and the move is legal on the board.
pub open spec fn addmove_accepts(
    pre: Game,
    newmove: usize,
    cred: Seq<char>,
    alive0: bool,
    alive1: bool,
) -> bool {
    let p0 = pre.seat_after_probe(0, alive0);
    let p1 = pre.seat_after_probe(1, alive1);
    let mover = if pre.board.next_turn == Player::X {
        p0
    } else {
        p1
    };
    &&& p0 is Some
    &&& p1 is Some
    &&& cred == mover->0.credentials@
    &&& crate::tictactoe::place_ok(pre.board, newmove)
}

/// How `addmove` takes a session from `pre` to `post`: the liveness
/// check's evictions always happen; the board advances by exactly the
/// submitted move iff the submission is accepted; nothing else changes.
pub open spec fn addmove_effect(
    pre: Game,
    post: Game,
    newmove: usize,
    cred: Seq<char>,
    alive0: bool,
    alive1: bool,
) -> bool {
    &&& post.wf()
    &&& post.spectators == pre.spectators
    &&& post.started == pre.started
    &&& post.outbox == pre.outbox
    &&& post.players@[0] == pre.seat_after_probe(0, alive0)
    &&& post.players@[1] == pre.seat_after_probe(1, alive1)
    &&& if addmove_accepts(pre, newmove, cred, alive0, alive1) {
        post.board.fields@ == pre.board.fields@.update(
            newmove as int,
            mark_of(pre.board.next_turn),
        ) && post.board.next_turn == opposite(pre.board.next_turn)
    } else {
        post.board == pre.board
    }
}

/// A rematch is authorized iff both seats are healthy after the probes
/// and the presented credential matches either seat.
pub open spec fn rematch_auth(pre: Game, cred: Seq<char>, alive0: bool, alive1: bool) -> bool {
    let p0 = pre.seat_after_probe(0, alive0);
    let p1 = pre.seat_after_probe(1, alive1);
    &&& p0 is Some
    &&& p1 is Some
    &&& (cred == p0->0.credentials@ || cred == p1->0.credentials@)
}

/// How `rematch` takes a session from `pre` to `post`: when authorized,
/// the seats swap (credentials travel with their players), the board is
/// reset with X to move, and the "game ready" notices fire anew for the
/// swapped pairing; otherwise only the liveness check's evictions
/// happen.
pub open spec fn rematch_effect(
    pre: Game,
    post: Game,
    cred: Seq<char>,
    alive0: bool,
    alive1: bool,
) -> bool {
    let p0 = pre.seat_after_probe(0, alive0);
    let p1 = pre.seat_after_probe(1, alive1);
    &&& post.wf()
    &&& post.spectators == pre.spectators
    &&& if rematch_auth(pre, cred, alive0, alive1) {
        &&& post.players@[0] == p1
        &&& post.players@[1] == p0
        &&& board_init(post.board)
        &&& post.started
        &&& post.outbox@ == pre.outbox@ + ready_msgs(p1->0.chan, p0->0.chan)
    } else {
        &&& post.players@[0] == p0
        &&& post.players@[1] == p1
        &&& post.board == pre.board
        &&& post.started == pre.started
        &&& post.outbox == pre.outbox
    }
}

impl Game {
    /// Admit the connection on channel `chan`. The liveness check runs
    /// first, so a seat held by a dead connection is reclaimed before
    /// the newcomer is placed. If both seats are then healthy the
    /// newcomer becomes a spectator; otherwise it fills the lowest-index
    /// empty seat and privately receives a fresh credential. In either
    /// case the "game ready" notices fire afterwards iff both seats are
    /// now occupied and the session was not already marked started.
    pub fn join(&mut self, chan: u64, alive0: bool, alive1: bool)
        requires
            old(self).wf(),
        ensures
            final(self).wf(),
            join_effect(*old(self), *final(self), chan, alive0, alive1),
    {
        let healthy = match self.healtchcheck(alive0, alive1) {
            Ok(b) => b,
            Err(_) => false,
        };
        let ghost mid = self.outbox@;
        if healthy {
            self.outbox.push(Outgoing::StartGame(chan));
            self.outbox.push(Outgoing::Notice(chan, Notice::Spectator));
            self.outbox.push(Outgoing::BoardState(chan));
            self.spectators.push(chan);
            proof {
                assert(self.outbox@ =~= mid + spectator_msgs(chan));
            }
        } else if self.players[0].is_none() {
            self.players.set(0, Some(ActivePlayer::new(chan)));
            self.outbox.push(Outgoing::Credentials(chan));
            self.outbox.push(Outgoing::Notice(chan, Notice::SeatAssigned(Player::X)));
            proof {
                assert(self.outbox@ =~= mid + seat_msgs(chan, Player::X));
            }
        } else {
            self.players.set(1, Some(ActivePlayer::new(chan)));
            self.outbox.push(Outgoing::Credentials(chan));
            self.outbox.push(Outgoing::Notice(chan, Notice::SeatAssigned(Player::O)));
            proof {
                assert(self.outbox@ =~= mid + seat_msgs(chan, Player::O));
            }
        }
        self.check_ready();
    }

    /// Submit a move at `newmove` authorized by `cred`. The session must
    /// be two-player-ready after the liveness check; the credential must
    /// be the one of the seat whose turn it is (seat 0 moves as X, seat 1
    /// as O); and the move itself must be legal on the board. Any
    /// mismatch yields `false` with the board unchanged — client-supplied
    /// data is untrusted, so denial is a normal outcome, never a panic.
    pub fn addmove(&mut self, newmove: usize, cred: String, alive0: bool, alive1: bool) -> (r:
        bool)
        requires
            old(self).wf(),
        ensures
            final(self).wf(),
            addmove_effect(*old(self), *final(self), newmove, cred@, alive0, alive1),
            r == addmove_accepts(*old(self), newmove, cred@, alive0, alive1),
    {
        let healthy = match self.healtchcheck(alive0, alive1) {
            Ok(b) => b,
            Err(_) => false,
        };
        if !healthy {
            return false;
        }
        let idx: usize = match self.board.next_turn {
            Player::X => 0,
            Player::O => 1,
        };
        if self.players[idx].as_ref().unwrap().credentials == cred {
            self.board.add_turn(newmove)
        } else {
            false
        }
    }

    /// Start the next round: requires both seats healthy and `cred` to
    /// match either seat. On success the two seats swap (so the players'
    /// marks alternate between rounds), the board is reset with X to
    /// move, and the "game ready" notices fire anew for the swapped
    /// pairing. Otherwise returns `false`, with no change beyond the
    /// liveness check's evictions.
    pub fn rematch(&mut self, cred: String, alive0: bool, alive1: bool) -> (r: bool)
        requires
            old(self).wf(),
        ensures
            final(self).wf(),
            rematch_effect(*old(self), *final(self), cred@, alive0, alive1),
            r == rematch_auth(*old(self), cred@, alive0, alive1),
    {
        let healthy = match self.healtchcheck(alive0, alive1) {
            Ok(b) => b,
            Err(_) => false,
        };
        if !healthy {
            return false;
        }
        let matches0 = self.players[0].as_ref().unwrap().credentials == cred;
        let matches1 = self.players[1].as_ref().unwrap().credentials == cred;
        if !(matches0 || matches1) {
            return false;
        }
        let mut tmp: Option<ActivePlayer> = None;
        self.players.set_and_swap(0, &mut tmp);
        self.players.set_and_swap(1, &mut tmp);
        self.players.set_and_swap(0, &mut tmp);
        self.board = Board::new();
        self.started = false;
        self.check_ready();
        true
    }
}

/// Which seat moves next: seat 0 plays X, seat 1 plays O.
pub open spec fn turn_index(p: Player) -> int {
    if p == Player::X {
        0
    } else {
        1
    }
}

/// The broadcast events for seat `i`: the board snapshot, followed —
/// only while the outcome is undecided — by that seat's turn notice.
pub open spec fn seat_show_msgs(g: Game, i: int) -> Seq<Outgoing> {
    if g.players@[i] is Some {
        let c = g.players@[i]->0.chan;
        seq![Outgoing::BoardState(c)] + (if winner_spec(g.board.fields@) is None {
            if turn_index(g.board.next_turn) == i {
                seq![Outgoing::Notice(c, Notice::YourTurn(g.board.next_turn))]
            } else {
                seq![Outgoing::Notice(c, Notice::WaitForOpponent)]
            }
        } else {
            Seq::<Outgoing>::empty()
        })
    } else {
        Seq::<Outgoing>::empty()
    }
}

/// The whole broadcast fan-out: both seats in seat order, then the
/// board snapshot to every spectator in admission order.
pub open spec fn show_msgs(g: Game) -> Seq<Outgoing> {
    seat_show_msgs(g, 0) + seat_show_msgs(g, 1) + Seq::new(
        g.spectators@.len(),
        |i: int| Outgoing::BoardState(g.spectators@[i]),
    )
}

/// How `show` takes a session from `pre` to `post`: the state is read,
/// never changed, and the full fan-out is queued in send order.
pub open spec fn show_effect(pre: Game, post: Game) -> bool {
    &&& post.wf()
    &&& post.board == pre.board
    &&& post.players == pre.players
    &&& post.spectators == pre.spectators
    &&& post.started == pre.started
    &&& post.outbox@ == pre.outbox@ + show_msgs(pre)
}

impl Game {
    /// Broadcast the current board snapshot (with its outcome) to both
    /// seats and every spectator, plus a turn notice to each seat while
    /// the game is undecided. Best-effort fan-out: the events are queued
    /// for every recipient; a dead recipient is the transport layer's
    /// concern and never aborts the remaining sends.
    pub fn show(&mut self)
        requires
            old(self).wf(),
        ensures
            final(self).wf(),
            show_effect(*old(self), *final(self)),
    {
        let undecided = self.board.get_winner().is_none();
        let turn: usize = match self.board.next_turn {
            Player::X => 0,
            Player::O => 1,
        };
        if self.players[0].is_some() {
            let c = self.players[0].as_ref().unwrap().chan;
            self.outbox.push(Outgoing::BoardState(c));
            if undecided {
                if turn == 0 {
                    self.outbox.push(Outgoing::Notice(c, Notice::YourTurn(self.board.next_turn)));
                } else {
                    self.outbox.push(Outgoing::Notice(c, Notice::WaitForOpponent));
                }
            }
        }
        proof {
            assert(self.outbox@ =~= old(self).outbox@ + seat_show_msgs(*old(self), 0));
        }
        if self.players[1].is_some() {
            let c = self.players[1].as_ref().unwrap().chan;
            self.outbox.push(Outgoing::BoardState(c));
            if undecided {
                if turn == 1 {
                    self.outbox.push(Outgoing::Notice(c, Notice::YourTurn(self.board.next_turn)));
                } else {
                    self.outbox.push(Outgoing::Notice(c, Notice::WaitForOpponent));
                }
            }
        }
        let ghost base = self.outbox@;
        proof {
            assert(base =~= old(self).outbox@ + seat_show_msgs(*old(self), 0) + seat_show_msgs(
                *old(self),
                1,
            ));
        }
        let mut k: usize = 0;
        while k < self.spectators.len()
            invariant
                old(self).wf(),
                self.wf(),
                k <= self.spectators@.len(),
                self.board == old(self).board,
                self.players == old(self).players,
                self.spectators == old(self).spectators,
                self.started == old(self).started,
                self.outbox@ == base + Seq::new(
                    k as nat,
                    |i: int| Outgoing::BoardState(self.spectators@[i]),
                ),
            decreases self.spectators@.len() - k,
        {
            let c = *vstd::std_specs::vec::vec_index(&self.spectators, k);
            self.outbox.push(Outgoing::BoardState(c));
            k = k + 1;
            proof {
                assert(self.outbox@ =~= base + Seq::new(
                    k as nat,
                    |i: int| Outgoing::BoardState(self.spectators@[i]),
                ));
            }
        }
        proof {
            assert(self.outbox@ =~= old(self).outbox@ + show_msgs(*old(self)));
        }
    }
}

} // verus!
