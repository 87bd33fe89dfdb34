use crate::board::Board;
use crate::board::Cell;
use crate::board::Grid;
use crate::coordinate::Coordinate;
use crate::coordinate::Direction;
use crate::player::Player;
use std::ops::Add;
use std::ops::Neg;
use vstd::prelude::*;

verus! {

/// One of the four lines through a cell along which marks can form a streak.
#[derive(Clone, Copy, Debug, PartialEq, Eq, Structural)]
pub enum Axis {
    /// Along a row.
    Horizontal,
    /// Along a column.
    Vertical,
    /// Down and to the right.
    Diagonal,
    /// Down and to the left.
    AntiDiagonal,
}

impl Axis {
    /// How far `steps` steps along the axis lead, as `(rows, columns)`.
    /// Negative steps lead the opposite way.
    pub open spec fn offset(self, steps: int) -> (int, int) {
        match self {
            Axis::Horizontal => (0, steps),
            Axis::Vertical => (steps, 0),
            Axis::Diagonal => (steps, steps),
            Axis::AntiDiagonal => (steps, -steps),
        }
    }

    /// The single step forward along the axis.
    pub fn direction(self) -> (dir: Direction)
        ensures
            (dir.drow as int, dir.dcol as int) == self.offset(1),
    {
        match self {
            Axis::Horizontal => Direction { drow: 0, dcol: 1 },
            Axis::Vertical => Direction { drow: 1, dcol: 0 },
            Axis::Diagonal => Direction { drow: 1, dcol: 1 },
            Axis::AntiDiagonal => Direction { drow: 1, dcol: -1 },
        }
    }
}

/// `steps` counted forward, or backward where `forward` is false.
spec fn toward(forward: bool, steps: int) -> int {
    if forward {
        steps
    } else {
        -steps
    }
}

impl Grid {
    /// Whether the cell `steps` steps along `axis` from `(row, col)` exists
    /// and holds the mark of `player`.
    pub open spec fn marked(self, row: int, col: int, axis: Axis, steps: int, player: Player) -> bool {
        let (drow, dcol) = axis.offset(steps);
        self.inside(row + drow, col + dcol) && self.cells[(row + drow, col + dcol)]
            == Cell::Occupied(player)
    }

    /// Whether the `len` cells that lie `first`, `first + 1`, ... steps along
    /// `axis` from `(row, col)` all hold the mark of `player`.
    pub open spec fn has_run(
        self,
        row: int,
        col: int,
        axis: Axis,
        first: int,
        len: nat,
        player: Player,
    ) -> bool {
        forall|steps: int|
            first <= steps < first + len ==> #[trigger] self.marked(row, col, axis, steps, player)
    }

    /// Whether `(row, col)` lies on an unbroken run of at least `k` marks of
    /// `player` along `axis`.
    pub open spec fn has_streak(self, row: int, col: int, axis: Axis, k: nat, player: Player) -> bool {
        exists|first: int, len: nat|
            first <= 0 < first + len && len >= k && #[trigger] self.has_run(
                row,
                col,
                axis,
                first,
                len,
                player,
            )
    }

    /// Whether the mark at `pos` completes a win: the cell holds a mark, and
    /// along one of the four axes it lies on an unbroken run of at least `k`
    /// marks of the same player. A mark is a run of one, so with `k` of zero
    /// or one every mark wins.
    pub open spec fn is_winning_move(self, pos: Coordinate, k: nat) -> bool {
        match self.player_at(pos) {
            Some(player) => {
                ||| self.has_streak(pos.row as int, pos.col as int, Axis::Horizontal, k, player)
                ||| self.has_streak(pos.row as int, pos.col as int, Axis::Vertical, k, player)
                ||| self.has_streak(pos.row as int, pos.col as int, Axis::Diagonal, k, player)
                ||| self.has_streak(pos.row as int, pos.col as int, Axis::AntiDiagonal, k, player)
            },
            None => false,
        }
    }
}

/// A finished streak is recognised from each of its cells. Where the `k` cells
/// that start at `(row, col)` and follow one another along `axis` all hold the
/// mark of `player`, the mark at any one of them is a winning move, whether it
/// lies at an end of the streak or inside it.
pub proof fn lemma_streak_wins_from_every_cell(
    grid: Grid,
    row: int,
    col: int,
    axis: Axis,
    player: Player,
    k: nat,
    at: nat,
    pos: Coordinate,
)
    requires
        grid.has_run(row, col, axis, 0, k, player),
        at < k,
        pos.row == row + axis.offset(at as int).0,
        pos.col == col + axis.offset(at as int).1,
    ensures
        grid.is_winning_move(pos, k),
{
    let here_row = pos.row as int;
    let here_col = pos.col as int;
    assert(grid.marked(row, col, axis, at as int, player));
    assert forall|steps: int| -at <= steps < -at + k implies #[trigger] grid.marked(
        here_row,
        here_col,
        axis,
        steps,
        player,
    ) by {
        assert(grid.marked(row, col, axis, steps + at, player));
    }
    assert(grid.has_run(here_row, here_col, axis, -at, k, player));
    assert(grid.has_streak(here_row, here_col, axis, k, player));
}

/// Walks from `start` along `axis`, forward or backward, and counts the marks
/// of `player` met before the first cell that is not theirs, the edge of the
/// board, or `limit` steps.
fn count_marks(
    board: &Board,
    start: Coordinate,
    axis: Axis,
    forward: bool,
    player: Player,
    limit: usize,
) -> (count: usize)
    ensures
        count <= limit,
        forall|steps: int|
            1 <= steps <= count ==> #[trigger] board@.marked(
                start.row as int,
                start.col as int,
                axis,
                toward(forward, steps),
                player,
            ),
        count < limit ==> !board@.marked(
            start.row as int,
            start.col as int,
            axis,
            toward(forward, count + 1),
            player,
        ),
{
    let dir = if forward {
        axis.direction()
    } else {
        axis.direction().neg()
    };
    let mut count: usize = 0;
    let mut cur = start;
    let mut open = true;
    while open && count < limit
        invariant
            count <= limit,
            (dir.drow as int, dir.dcol as int) == axis.offset(toward(forward, 1)),
            cur.row == start.row + axis.offset(toward(forward, count as int)).0,
            cur.col == start.col + axis.offset(toward(forward, count as int)).1,
            forall|steps: int|
                1 <= steps <= count ==> #[trigger] board@.marked(
                    start.row as int,
                    start.col as int,
                    axis,
                    toward(forward, steps),
                    player,
                ),
            !open ==> !board@.marked(
                start.row as int,
                start.col as int,
                axis,
                toward(forward, count + 1),
                player,
            ),
        decreases limit - count + if open { 1int } else { 0int },
    {
        proof {
            board.lemma_dimensions_fit();
        }
        let next = cur.add(dir);
        let owner = match next {
            Some(reached) => board.get(reached),
            None => None,
        };
        match (next, owner) {
            (Some(reached), Some(found)) => {
                if found == player {
                    cur = reached;
                    count = count + 1;
                } else {
                    open = false;
                }
            },
            _ => {
                open = false;
            },
        }
    }
    count
}

/// Whether the mark of `player` at `pos` lies on a streak of at least `k`
/// along `axis`. Each side of `pos` is searched for at most `k - 1` steps.
fn completes_streak(board: &Board, pos: Coordinate, axis: Axis, player: Player, k: usize) -> (complete:
    bool)
    requires
        board@.player_at(pos) == Some(player),
    ensures
        complete == board@.has_streak(pos.row as int, pos.col as int, axis, k as nat, player),
{
    let limit: usize = if k == 0 {
        0
    } else {
        k - 1
    };
    let ahead: usize = count_marks(board, pos, axis, true, player, limit);
    let behind: usize = count_marks(board, pos, axis, false, player, limit);
    // The streak is one mark longer than what was counted on its two sides.
    let complete = ahead >= limit - behind;
    proof {
        let grid = board@;
        let row = pos.row as int;
        let col = pos.col as int;
        assert(grid.marked(row, col, axis, 0, player));
        if complete {
            let first = -(behind as int);
            let len = (1 + ahead + behind) as nat;
            assert forall|steps: int| first <= steps < first + len implies #[trigger] grid.marked(
                row,
                col,
                axis,
                steps,
                player,
            ) by {
                if steps > 0 {
                    assert(grid.marked(row, col, axis, toward(true, steps), player));
                } else if steps < 0 {
                    assert(grid.marked(row, col, axis, toward(false, -steps), player));
                }
            }
            assert(grid.has_run(row, col, axis, first, len, player));
        } else {
            // Both walks stopped short of their limit, each before a cell that
            // is not the player's. A run of `k` cells through `pos` would
            // hold one of the two.
            assert(!grid.marked(row, col, axis, toward(true, ahead + 1), player));
            assert(!grid.marked(row, col, axis, toward(false, behind + 1), player));
            assert forall|first: int, len: nat|
                first <= 0 < first + len && len >= k implies !#[trigger] grid.has_run(
                row,
                col,
                axis,
                first,
                len,
                player,
            ) by {
                assert(first <= -(behind + 1) || ahead + 1 < first + len);
            }
        }
    }
    complete
}

/// Whether the mark just placed at `pos` wins the game for its player: along
/// some axis it lies on an unbroken run of at least `k` of their marks. An
/// empty cell, or one outside the board, wins nothing.
pub fn was_winning_move(board: &Board, pos: Coordinate, k: usize) -> (won: bool)
    ensures
        won == board@.is_winning_move(pos, k as nat),
{
    match board.get(pos) {
        None => false,
        Some(player) => {
            completes_streak(board, pos, Axis::Horizontal, player, k) || completes_streak(
                board,
                pos,
                Axis::Vertical,
                player,
                k,
            ) || completes_streak(board, pos, Axis::Diagonal, player, k) || completes_streak(
                board,
                pos,
                Axis::AntiDiagonal,
                player,
                k,
            )
        },
    }
}

} // verus!
