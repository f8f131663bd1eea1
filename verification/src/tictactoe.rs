//! Pure game rules: the board, turn order, move legality and win/draw
//! detection, plus the move-suggestion policy for the single-player mode.

use vstd::array::array_index_get;
use vstd::prelude::*;

verus! {

/// One cell of the board.
#[derive(Copy, Clone, PartialEq, Eq, Structural, Debug)]
pub enum Field {
    X,
    O,
    Empty,
}

/// One of the two sides; also names whose move is next.
#[derive(Copy, Clone, PartialEq, Eq, Structural, Debug)]
pub enum Player {
    X,
    O,
}

/// The side that moves after `p`.
pub open spec fn opposite(p: Player) -> Player {
    match p {
        Player::X => Player::O,
        Player::O => Player::X,
    }
}

/// The mark that player `p` places.
pub open spec fn mark_of(p: Player) -> Field {
    match p {
        Player::X => Field::X,
        Player::O => Field::O,
    }
}

impl Player {
    /// The other side.
    pub fn other(self) -> (r: Player)
        ensures
            r == opposite(self),
    {
        match self {
            Player::X => Player::O,
            Player::O => Player::X,
        }
    }

    /// The side whose mark is `value`; an empty cell names no side.
    pub fn try_from(value: Field) -> (r: Result<Player, ()>)
        ensures
            r == match value {
                Field::X => Ok::<Player, ()>(Player::X),
                Field::O => Ok::<Player, ()>(Player::O),
                Field::Empty => Err::<Player, ()>(()),
            },
    {
        match value {
            Field::X => Ok(Player::X),
            Field::O => Ok(Player::O),
            Field::Empty => Err(()),
        }
    }
}

/// The authoritative game state: nine cells and the side to move.
#[derive(Debug)]
pub struct Board {
    pub fields: [Field; 9],
    pub next_turn: Player,
}

/// A freshly created board: all cells empty, X to move.
pub open spec fn board_init(b: Board) -> bool {
    &&& b.fields@ =~= Seq::new(9, |i: int| Field::Empty)
    &&& b.next_turn == Player::X
}

/// The cell indices of winning line `i`: three rows, three columns and the
/// two diagonals, in the fixed order in which `get_winner` examines them.
pub open spec fn line(i: int) -> (int, int, int) {
    if i == 0 {
        (0, 1, 2)
    } else if i == 1 {
        (3, 4, 5)
    } else if i == 2 {
        (6, 7, 8)
    } else if i == 3 {
        (0, 3, 6)
    } else if i == 4 {
        (1, 4, 7)
    } else if i == 5 {
        (2, 5, 8)
    } else if i == 6 {
        (0, 4, 8)
    } else {
        (2, 4, 6)
    }
}

/// All three cells of line `i` hold `f`.
pub open spec fn line_all(cells: Seq<Field>, i: int, f: Field) -> bool {
    &&& cells[line(i).0] == f
    &&& cells[line(i).1] == f
    &&& cells[line(i).2] == f
}

/// Some cell of line `i` holds `f`.
pub open spec fn line_has(cells: Seq<Field>, i: int, f: Field) -> bool {
    ||| cells[line(i).0] == f
    ||| cells[line(i).1] == f
    ||| cells[line(i).2] == f
}

/// Line `i` holds marks of both sides, so neither can complete it.
pub open spec fn line_blocked(cells: Seq<Field>, i: int) -> bool {
    line_has(cells, i, Field::X) && line_has(cells, i, Field::O)
}

/// The outcome that scanning lines `i..8` reports, given that every line
/// before `i` was blocked iff `all_blocked` holds: the first line fully
/// owned by one side wins; if every line is blocked the game is a draw,
/// reported as `(Empty, 10)`; otherwise the game is still open.
pub open spec fn winner_from(cells: Seq<Field>, i: int, all_blocked: bool) -> Option<(Field, usize)>
    decreases 8 - i,
{
    if i >= 8 {
        if all_blocked {
            Some((Field::Empty, 10))
        } else {
            None
        }
    } else if line_all(cells, i, Field::X) {
        Some((Field::X, i as usize))
    } else if line_all(cells, i, Field::O) {
        Some((Field::O, i as usize))
    } else {
        winner_from(cells, i + 1, all_blocked && line_blocked(cells, i))
    }
}

/// The outcome of a finished or ongoing game, as a function of the cells
/// alone: the scan from line 0 with no line blocked yet.
pub open spec fn winner_spec(cells: Seq<Field>) -> Option<(Field, usize)> {
    winner_from(cells, 0, true)
}

/// Law: the reported outcome is a function of the cells alone — two
/// boards with the same cells report the same winner, so repeated calls
/// of `get_winner` on an unchanged board return the identical result.
pub proof fn lemma_winner_deterministic(b1: Board, b2: Board)
    requires
        b1.fields@ == b2.fields@,
    ensures
        winner_spec(b1.fields@) == winner_spec(b2.fields@),
{
}

/// Law: once every line holds marks of both sides, the game is a draw,
/// reported as the sentinel `(Empty, 10)`.
pub proof fn lemma_all_blocked_is_draw(cells: Seq<Field>)
    requires
        forall|i: int| 0 <= i < 8 ==> line_blocked(cells, i),
    ensures
        winner_spec(cells) == Some((Field::Empty, 10usize)),
{
    lemma_blocked_scan(cells, 0);
}

/// The scan from line `i` reports the draw when every remaining line is
/// blocked and every earlier one was.
proof fn lemma_blocked_scan(cells: Seq<Field>, i: int)
    requires
        0 <= i <= 8,
        forall|j: int| i <= j < 8 ==> line_blocked(cells, j),
    ensures
        winner_from(cells, i, true) == Some((Field::Empty, 10usize)),
    decreases 8 - i,
{
    if i < 8 {
        lemma_blocked_scan(cells, i + 1);
    }
}

/// A move at `pos` is legal on the cells `cells`: in range, on an empty
/// cell, and the outcome is not yet decided.
pub open spec fn move_ok(cells: Seq<Field>, pos: usize) -> bool {
    &&& pos < 9
    &&& cells[pos as int] == Field::Empty
    &&& winner_spec(cells) is None
}

/// A move at `pos` is legal on board `b`.
pub open spec fn place_ok(b: Board, pos: usize) -> bool {
    move_ok(b.fields@, pos)
}

/// The cells and the side to move after playing `moves` in order,
/// starting from `cells` with `turn` to move.
pub open spec fn play(cells: Seq<Field>, turn: Player, moves: Seq<usize>) -> (Seq<Field>, Player)
    decreases moves.len(),
{
    if moves.len() == 0 {
        (cells, turn)
    } else {
        play(cells.update(moves[0] as int, mark_of(turn)), opposite(turn), moves.drop_first())
    }
}

/// Every move of `moves` is legal at the moment its turn comes.
pub open spec fn all_legal(cells: Seq<Field>, turn: Player, moves: Seq<usize>) -> bool
    decreases moves.len(),
{
    moves.len() == 0 || (move_ok(cells, moves[0]) && all_legal(
        cells.update(moves[0] as int, mark_of(turn)),
        opposite(turn),
        moves.drop_first(),
    ))
}

/// The board and side to move after stage `s` of a sequence: the first
/// `s` moves have been played.
pub open spec fn stage(cells: Seq<Field>, turn: Player, moves: Seq<usize>, s: int) -> (
    Seq<Field>,
    Player,
) {
    play(cells, turn, moves.take(s))
}

/// Stage `s` of a sequence equals stage `s - 1` of the sequence that
/// remains after its first move.
proof fn lemma_stage_shift(cells: Seq<Field>, turn: Player, moves: Seq<usize>, s: int)
    requires
        1 <= s <= moves.len(),
    ensures
        stage(cells, turn, moves, s) == stage(
            cells.update(moves[0] as int, mark_of(turn)),
            opposite(turn),
            moves.drop_first(),
            s - 1,
        ),
{
    assert(moves.take(s).drop_first() =~= moves.drop_first().take(s - 1));
}

/// Law: along any sequence of legal moves, a cell that is marked at one
/// stage is never overwritten — it holds the same mark at every later
/// stage.
pub proof fn lemma_no_overwrite(cells: Seq<Field>, turn: Player, moves: Seq<usize>, k: int, l: int, i: int)
    requires
        cells.len() == 9,
        all_legal(cells, turn, moves),
        0 <= k <= l <= moves.len(),
        0 <= i < 9,
        stage(cells, turn, moves, k).0[i] != Field::Empty,
    ensures
        stage(cells, turn, moves, l).0[i] == stage(cells, turn, moves, k).0[i],
    decreases moves.len(),
{
    assert(moves.take(0) =~= Seq::<usize>::empty());
    if k > 0 {
        lemma_stage_shift(cells, turn, moves, k);
        lemma_stage_shift(cells, turn, moves, l);
        let c2 = cells.update(moves[0] as int, mark_of(turn));
        lemma_no_overwrite(c2, opposite(turn), moves.drop_first(), k - 1, l - 1, i);
    } else if l > 0 {
        lemma_stage_shift(cells, turn, moves, l);
        let c2 = cells.update(moves[0] as int, mark_of(turn));
        lemma_no_overwrite(c2, opposite(turn), moves.drop_first(), 0, l - 1, i);
    }
}

/// The side to move after a sequence is determined by the sequence's
/// length alone: each move flips it.
proof fn lemma_play_parity(cells: Seq<Field>, turn: Player, moves: Seq<usize>)
    ensures
        play(cells, turn, moves).1 == (if moves.len() % 2 == 0 {
            turn
        } else {
            opposite(turn)
        }),
    decreases moves.len(),
{
    if moves.len() > 0 {
        let c2 = cells.update(moves[0] as int, mark_of(turn));
        lemma_play_parity(c2, opposite(turn), moves.drop_first());
    }
}

/// Law: along any sequence of legal moves the side to move strictly
/// alternates — it flips at every single stage, and after the whole
/// sequence it is determined by the sequence's length alone.
pub proof fn lemma_turns_alternate(cells: Seq<Field>, turn: Player, moves: Seq<usize>)
    requires
        all_legal(cells, turn, moves),
    ensures
        play(cells, turn, moves).1 == (if moves.len() % 2 == 0 {
            turn
        } else {
            opposite(turn)
        }),
        forall|k: int|
            0 <= k < moves.len() ==> stage(cells, turn, moves, k + 1).1 == opposite(
                stage(cells, turn, moves, k).1,
            ),
{
    lemma_play_parity(cells, turn, moves);
    assert forall|k: int|
        0 <= k < moves.len() implies stage(cells, turn, moves, k + 1).1 == opposite(
        stage(cells, turn, moves, k).1,
    ) by {
        lemma_play_parity(cells, turn, moves.take(k));
        lemma_play_parity(cells, turn, moves.take(k + 1));
    }
}

impl Board {
    pub fn new() -> (b: Board)
        ensures
            board_init(b),
    {
        Board { fields: [Field::Empty; 9], next_turn: Player::X }
    }

    /// A snapshot of the nine cells.
    pub fn show(&self) -> (r: [Field; 9])
        ensures
            r == self.fields,
    {
        self.fields
    }

    /// Play the pending side's mark at `position`. Illegal moves are a
    /// normal outcome: the call returns `false` and changes nothing.
    pub fn add_turn(&mut self, position: usize) -> (r: bool)
        ensures
            r == place_ok(*old(self), position),
            r ==> final(self).fields@ == old(self).fields@.update(
                position as int,
                mark_of(old(self).next_turn),
            ) && final(self).next_turn == opposite(old(self).next_turn),
            !r ==> *final(self) == *old(self),
    {
        if position > 8 || *array_index_get(&self.fields, position) != Field::Empty
            || self.get_winner().is_some() {
            false
        } else {
            match self.next_turn {
                Player::X => self.fields[position] = Field::X,
                Player::O => self.fields[position] = Field::O,
            }
            self.next_turn = self.next_turn.other();
            true
        }
    }

    /// The cells of winning line `i`, as a callable counterpart of `line`.
    fn line_cells(i: usize) -> (r: (usize, usize, usize))
        requires
            i < 8,
        ensures
            (r.0 as int, r.1 as int, r.2 as int) == line(i as int),
            r.0 < 9 && r.1 < 9 && r.2 < 9,
    {
        if i == 0 {
            (0, 1, 2)
        } else if i == 1 {
            (3, 4, 5)
        } else if i == 2 {
            (6, 7, 8)
        } else if i == 3 {
            (0, 3, 6)
        } else if i == 4 {
            (1, 4, 7)
        } else if i == 5 {
            (2, 5, 8)
        } else if i == 6 {
            (0, 4, 8)
        } else {
            (2, 4, 6)
        }
    }

    /// The first fully-owned line as `(winning mark, line index)`,
    /// `(Empty, 10)` once all eight lines are blocked, and `None` while
    /// the game is still open. The scan order is fixed, so the reported
    /// outcome is a function of the cells alone.
    pub fn get_winner(&self) -> (r: Option<(Field, usize)>)
        ensures
            r == winner_spec(self.fields@),
    {
        let mut i: usize = 0;
        let mut all_blocked: bool = true;
        while i < 8
            invariant
                i <= 8,
                winner_spec(self.fields@) == winner_from(self.fields@, i as int, all_blocked),
            decreases 8 - i,
        {
            let (a, b, c) = Board::line_cells(i);
            let ca = *array_index_get(&self.fields, a);
            let cb = *array_index_get(&self.fields, b);
            let cc = *array_index_get(&self.fields, c);
            if ca == Field::X && cb == Field::X && cc == Field::X {
                return Some((Field::X, i));
            }
            if ca == Field::O && cb == Field::O && cc == Field::O {
                return Some((Field::O, i));
            }
            let has_x = ca == Field::X || cb == Field::X || cc == Field::X;
            let has_o = ca == Field::O || cb == Field::O || cc == Field::O;
            all_blocked = all_blocked && has_x && has_o;
            i = i + 1;
        }
        if all_blocked {
            Some((Field::Empty, 10))
        } else {
            None
        }
    }
}

/// Line `i` holds two marks `f` and one empty cell, so one move there
/// completes it for `f`.
pub open spec fn two_and_free(cells: Seq<Field>, i: int, f: Field) -> bool {
    ||| (cells[line(i).0] == f && cells[line(i).1] == f && cells[line(i).2] == Field::Empty)
    ||| (cells[line(i).0] == f && cells[line(i).1] == Field::Empty && cells[line(i).2] == f)
    ||| (cells[line(i).0] == Field::Empty && cells[line(i).1] == f && cells[line(i).2] == f)
}

/// Some line can be completed for `f` by a single move.
pub open spec fn some_winnable(cells: Seq<Field>, f: Field) -> bool {
    exists|i: int| 0 <= i < 8 && two_and_free(cells, i, f)
}

/// Placing a mark at `r` completes some line for `f`.
pub open spec fn completes_win(cells: Seq<Field>, r: usize, f: Field) -> bool {
    &&& r < 9
    &&& cells[r as int] == Field::Empty
    &&& exists|i: int|
        0 <= i < 8 && two_and_free(cells, i, f) && (line(i).0 == r as int || line(i).1 == r as int
            || line(i).2 == r as int)
}

/// Some cell is still empty.
pub open spec fn has_empty(cells: Seq<Field>) -> bool {
    exists|i: int| 0 <= i < 9 && cells[i] == Field::Empty
}

/// `r` is one of the four corner cells.
pub open spec fn is_corner(r: usize) -> bool {
    r == 0 || r == 2 || r == 6 || r == 8
}

/// Some corner cell is still empty.
pub open spec fn some_empty_corner(cells: Seq<Field>) -> bool {
    ||| cells[0] == Field::Empty
    ||| cells[2] == Field::Empty
    ||| cells[6] == Field::Empty
    ||| cells[8] == Field::Empty
}

/// The four independent switches of the move-suggestion policy.
#[derive(Copy, Clone, PartialEq, Eq, Structural, Debug)]
pub struct Difficulty {
    pub block: bool,
    pub prefer_center: bool,
    pub prefer_corners: bool,
    pub take_win: bool,
}

impl Difficulty {
    /// Every switch on.
    pub fn hardest() -> (d: Difficulty)
        ensures
            d == (Difficulty { block: true, prefer_center: true, prefer_corners: true, take_win: true }),
    {
        Difficulty { block: true, prefer_center: true, prefer_corners: true, take_win: true }
    }

    /// Wins and blocks, but places the rest without preference.
    pub fn hard() -> (d: Difficulty)
        ensures
            d == (Difficulty { block: true, prefer_center: false, prefer_corners: false, take_win: true }),
    {
        Difficulty { block: true, prefer_center: false, prefer_corners: false, take_win: true }
    }

    /// Wins and places well, but never blocks the opponent.
    pub fn medium() -> (d: Difficulty)
        ensures
            d == (Difficulty { block: false, prefer_center: true, prefer_corners: true, take_win: true }),
    {
        Difficulty { block: false, prefer_center: true, prefer_corners: true, take_win: true }
    }

    /// Wins and prefers corners only.
    pub fn beatable() -> (d: Difficulty)
        ensures
            d == (Difficulty { block: false, prefer_center: false, prefer_corners: true, take_win: true }),
    {
        Difficulty { block: false, prefer_center: false, prefer_corners: true, take_win: true }
    }

    /// Takes an immediate win, otherwise plays at random.
    pub fn easy() -> (d: Difficulty)
        ensures
            d == (Difficulty { block: false, prefer_center: false, prefer_corners: false, take_win: true }),
    {
        Difficulty { block: false, prefer_center: false, prefer_corners: false, take_win: true }
    }

    /// Every switch off: plays entirely at random.
    pub fn easiest() -> (d: Difficulty)
        ensures
            d == (Difficulty { block: false, prefer_center: false, prefer_corners: false, take_win: false }),
    {
        Difficulty { block: false, prefer_center: false, prefer_corners: false, take_win: false }
    }
}

/// Relies on rand's `SliceRandom::shuffle` (with `rand::thread_rng`): the
/// slice afterwards holds the same elements, permuted in an order that
/// depends on the generator's random state.
#[verifier::external_body]
fn shuffle(v: &mut Vec<usize>)
    ensures
        final(v)@.to_multiset() == old(v)@.to_multiset(),
{
    let mut rng = rand::thread_rng();
    rand::seq::SliceRandom::shuffle(v.as_mut_slice(), &mut rng);
}

/// Every element of `s` names an empty cell of `cells`.
pub open spec fn all_empty_cells(s: Seq<usize>, cells: Seq<Field>) -> bool {
    forall|k: int| 0 <= k < s.len() ==> s[k] < 9 && cells[s[k] as int] == Field::Empty
}

/// Every element of `s` names an empty corner of `cells`.
pub open spec fn all_empty_corners(s: Seq<usize>, cells: Seq<Field>) -> bool {
    forall|k: int|
        0 <= k < s.len() ==> is_corner(s[k]) && cells[s[k] as int] == Field::Empty
}

/// A permutation has the same length as the sequence it permutes.
proof fn lemma_permutation_len(before: Seq<usize>, after: Seq<usize>)
    requires
        after.to_multiset() == before.to_multiset(),
    ensures
        after.len() == before.len(),
{
    vstd::seq_lib::to_multiset_len::<usize>(before);
    vstd::seq_lib::to_multiset_len::<usize>(after);
}

/// An element of a permutation occurs in the sequence it permutes.
proof fn lemma_permutation_element(before: Seq<usize>, after: Seq<usize>, x: usize)
    requires
        after.to_multiset() == before.to_multiset(),
        after.contains(x),
    ensures
        before.contains(x),
{
    vstd::seq_lib::to_multiset_contains::<usize>(after, x);
    vstd::seq_lib::to_multiset_contains::<usize>(before, x);
    assert(after.to_multiset().count(x) > 0);
}

/// The fixed-priority move-suggestion heuristic for the side to move:
/// take an immediate win, else block an immediate opponent win, else take
/// the center, else a random empty corner, else any random empty cell —
/// each stage only if its switch in `lvl` is on and, for the stages that
/// pick at random, only the choice among the stage's cells is random.
/// On a full board the sentinel 11 is returned.
pub fn best_next_move(b: &Board, lvl: &Difficulty) -> (r: usize)
    ensures
        ({
            let cells = b.fields@;
            let me = mark_of(b.next_turn);
            let other = mark_of(opposite(b.next_turn));
            let winning = lvl.take_win && some_winnable(cells, me);
            let blocking = !winning && lvl.block && some_winnable(cells, other);
            let center = !winning && !blocking && lvl.prefer_center && cells[4] == Field::Empty;
            let corner = !winning && !blocking && !center && lvl.prefer_corners
                && some_empty_corner(cells);
            &&& winning ==> completes_win(cells, r, me)
            &&& blocking ==> completes_win(cells, r, other)
            &&& center ==> r == 4
            &&& corner ==> is_corner(r) && cells[r as int] == Field::Empty
            &&& has_empty(cells) ==> r < 9 && cells[r as int] == Field::Empty
            &&& !has_empty(cells) ==> r == 11
        }),
{
    let me: Field;
    let other: Field;
    match b.next_turn {
        Player::X => {
            me = Field::X;
            other = Field::O;
        },
        Player::O => {
            me = Field::O;
            other = Field::X;
        },
    }
    let mut block: usize = 10;

    // First pass over the lines: an immediate win is taken at once, the
    // cell that blocks an opponent win is remembered.
    let mut i: usize = 0;
    while i < 8
        invariant
            i <= 8,
            me == mark_of(b.next_turn),
            other == mark_of(opposite(b.next_turn)),
            lvl.take_win ==> forall|j: int| 0 <= j < i ==> !two_and_free(b.fields@, j, me),
            block == 10 ==> forall|j: int| 0 <= j < i ==> !two_and_free(b.fields@, j, other),
            block != 10 ==> completes_win(b.fields@, block, other),
        decreases 8 - i,
    {
        let (a, bb, c) = Board::line_cells(i);
        let ca = *array_index_get(&b.fields, a);
        let cb = *array_index_get(&b.fields, bb);
        let cc = *array_index_get(&b.fields, c);
        let me2 = (ca == me && cb == me && cc == Field::Empty) || (ca == me && cb == Field::Empty
            && cc == me) || (ca == Field::Empty && cb == me && cc == me);
        let ot2 = (ca == other && cb == other && cc == Field::Empty) || (ca == other && cb
            == Field::Empty && cc == other) || (ca == Field::Empty && cb == other && cc == other);
        let freec = if ca == Field::Empty {
            a
        } else if cb == Field::Empty {
            bb
        } else {
            c
        };
        if me2 && lvl.take_win {
            proof {
                assert(two_and_free(b.fields@, i as int, me));
                assert(completes_win(b.fields@, freec, me));
            }
            return freec;
        }
        if ot2 {
            proof {
                assert(two_and_free(b.fields@, i as int, other));
            }
            block = freec;
        }
        i = i + 1;
    }

    // If the opponent could win next turn, block that line.
    if block != 10 && lvl.block {
        return block;
    }

    // Otherwise prefer the center when it is free.
    if lvl.prefer_center && *array_index_get(&b.fields, 4) == Field::Empty {
        return 4;
    }

    // Then a random empty corner.
    if lvl.prefer_corners {
        let mut corners: Vec<usize> = Vec::new();
        if *array_index_get(&b.fields, 0) == Field::Empty {
            corners.push(0);
        }
        assert(all_empty_corners(corners@, b.fields@));
        if *array_index_get(&b.fields, 2) == Field::Empty {
            corners.push(2);
        }
        assert(all_empty_corners(corners@, b.fields@));
        if *array_index_get(&b.fields, 6) == Field::Empty {
            corners.push(6);
        }
        assert(all_empty_corners(corners@, b.fields@));
        if *array_index_get(&b.fields, 8) == Field::Empty {
            corners.push(8);
        }
        assert(all_empty_corners(corners@, b.fields@));
        let ghost before = corners@;
        if corners.len() > 0 {
            shuffle(&mut corners);
            proof {
                lemma_permutation_len(before, corners@);
            }
            let pick = *vstd::std_specs::vec::vec_index(&corners, 0);
            proof {
                assert(corners@.contains(pick));
                lemma_permutation_element(before, corners@, pick);
                let k = choose|k: int| 0 <= k < before.len() && before[k] == pick;
                assert(is_corner(before[k]) && b.fields@[before[k] as int] == Field::Empty);
            }
            return pick;
        }
    }

    // Finally any random empty cell.
    let mut empties: Vec<usize> = Vec::new();
    let mut v: usize = 0;
    while v < 9
        invariant
            v <= 9,
            forall|j: int|
                0 <= j < v ==> b.fields@[j] != Field::Empty || empties@.contains(j as usize),
            all_empty_cells(empties@, b.fields@),
        decreases 9 - v,
    {
        let ghost prev = empties@;
        if *array_index_get(&b.fields, v) == Field::Empty {
            empties.push(v);
        }
        proof {
            assert forall|j: int|
                0 <= j < v + 1 implies b.fields@[j] != Field::Empty || empties@.contains(
                j as usize,
            ) by {
                if b.fields@[j] == Field::Empty {
                    if j < v {
                        let k = choose|k: int| 0 <= k < prev.len() && prev[k] == j as usize;
                        assert(empties@[k] == j as usize);
                    } else {
                        assert(empties@[empties@.len() - 1] == j as usize);
                    }
                }
            }
        }
        v = v + 1;
    }
    let ghost pool = empties@;
    if empties.len() > 0 {
        shuffle(&mut empties);
        proof {
            lemma_permutation_len(pool, empties@);
        }
        let pick = *vstd::std_specs::vec::vec_index(&empties, 0);
        proof {
            assert(empties@.contains(pick));
            lemma_permutation_element(pool, empties@, pick);
            let k = choose|k: int| 0 <= k < pool.len() && pool[k] == pick;
            assert(pool[k] < 9 && b.fields@[pool[k] as int] == Field::Empty);
        }
        return pick;
    }
    11
}

} // verus!
