use crate::coordinate::Coordinate;
use crate::player::Player;
use vstd::prelude::*;

verus! {

/// What one cell of the board holds.
#[derive(Clone, Copy, Debug, PartialEq, Eq, Structural)]
pub enum Cell {
    Empty,
    Occupied(Player),
}

/// Why a move was refused.
#[derive(Clone, Copy, Debug, PartialEq, Eq, Structural)]
pub enum MoverError {
    /// The coordinate addresses no cell of the board.
    OutOfBounds,
    /// The cell already holds a mark.
    AlreadyOccupied,
}

/// The mathematical grid that a [`Board`] stands for: its dimensions and the
/// content of every cell, keyed by `(row, column)`.
pub struct Grid {
    pub height: nat,
    pub width: nat,
    pub cells: Map<(int, int), Cell>,
}

impl Grid {
    /// Whether `(row, col)` addresses a cell.
    pub open spec fn inside(self, row: int, col: int) -> bool {
        0 <= row < self.height && 0 <= col < self.width
    }

    /// The grid holds exactly one cell for each address inside its dimensions
    /// and none for any other.
    pub open spec fn well_formed(self) -> bool {
        forall|row: int, col: int| #[trigger]
            self.cells.dom().contains((row, col)) <==> self.inside(row, col)
    }

    /// The grid of the given dimensions in which every cell is empty.
    pub open spec fn empty(height: nat, width: nat) -> Grid {
        Grid {
            height,
            width,
            cells: Map::new(
                |at: (int, int)| 0 <= at.0 < height && 0 <= at.1 < width,
                |at: (int, int)| Cell::Empty,
            ),
        }
    }

    /// Whether `pos` addresses a cell.
    pub open spec fn is_inside(self, pos: Coordinate) -> bool {
        self.inside(pos.row as int, pos.col as int)
    }

    /// The content of the cell at `pos`, or `None` where `pos` addresses no cell.
    pub open spec fn get(self, pos: Coordinate) -> Option<Cell> {
        if self.is_inside(pos) {
            Some(self.cells[(pos.row as int, pos.col as int)])
        } else {
            None
        }
    }

    /// Whether the cell at `pos` is free, or `None` where `pos` addresses no cell.
    pub open spec fn is_empty(self, pos: Coordinate) -> Option<bool> {
        match self.get(pos) {
            Some(cell) => Some(cell == Cell::Empty),
            None => None,
        }
    }

    /// The player whose mark the cell at `pos` holds, if it holds one.
    pub open spec fn player_at(self, pos: Coordinate) -> Option<Player> {
        match self.get(pos) {
            Some(Cell::Occupied(player)) => Some(player),
            _ => None,
        }
    }

    /// Whether a mark may be placed at `pos`, and if not, why.
    pub open spec fn check_move(self, pos: Coordinate) -> Result<(), MoverError> {
        match self.get(pos) {
            None => Err(MoverError::OutOfBounds),
            Some(Cell::Occupied(_)) => Err(MoverError::AlreadyOccupied),
            Some(Cell::Empty) => Ok(()),
        }
    }

    /// The grid after `player` tried to mark `pos`: on a legal move that one
    /// cell becomes theirs, on a refused move nothing changes.
    pub open spec fn place(self, pos: Coordinate, player: Player) -> Grid {
        if self.check_move(pos) is Ok {
            Grid {
                cells: self.cells.insert((pos.row as int, pos.col as int), Cell::Occupied(player)),
                ..self
            }
        } else {
            self
        }
    }
}

/// The character that shows a cell: a blank for a free cell, the player's
/// symbol for a taken one.
pub open spec fn symbol(cell: Cell) -> char {
    match cell {
        Cell::Empty => ' ',
        Cell::Occupied(player) => player.name,
    }
}

/// The first `len` characters of the line drawn between two rows, in which
/// posts and bars alternate: `+-+-+` for a length of five.
pub open spec fn rule(len: nat) -> Seq<char> {
    Seq::new(
        len,
        |i: int|
            if i % 2 == 0 {
                '+'
            } else {
                '-'
            },
    )
}

impl Grid {
    /// The line drawn between two rows: `+-+-+` for a width of two.
    pub open spec fn rule_line(self) -> Seq<char> {
        rule(2 * self.width + 1)
    }

    /// The line that shows a row: `|X| |` for a width of two with a mark of
    /// `X` in the first column.
    pub open spec fn row_line(self, row: int) -> Seq<char> {
        Seq::new(
            2 * self.width + 1,
            |i: int|
                if i % 2 == 0 {
                    '|'
                } else {
                    symbol(self.cells[(row, i / 2)])
                },
        )
    }

    /// The picture of the grid, line by line: a rule, then each row followed
    /// by a rule.
    pub open spec fn picture(self) -> Seq<Seq<char>> {
        Seq::new(
            2 * self.height + 1,
            |i: int|
                if i % 2 == 0 {
                    self.rule_line()
                } else {
                    self.row_line(i / 2)
                },
        )
    }
}

/// Outside the grid there is nothing to read and nowhere to place a mark: a
/// read yields `None`, and a move is refused as out of bounds and changes
/// nothing.
pub proof fn lemma_outside_is_refused(grid: Grid, pos: Coordinate, player: Player)
    requires
        !grid.is_inside(pos),
    ensures
        grid.get(pos) is None,
        grid.is_empty(pos) is None,
        grid.player_at(pos) is None,
        grid.check_move(pos) == Err::<(), MoverError>(MoverError::OutOfBounds),
        grid.place(pos, player) == grid,
{
}

/// A cell takes one mark only. Whoever moves at `pos` first, a further move
/// there is refused because the cell is occupied, and the cell keeps what it
/// held: the mark of `first` where that move was legal.
pub proof fn lemma_second_move_is_refused(
    grid: Grid,
    pos: Coordinate,
    first: Player,
    second: Player,
)
    requires
        grid.is_inside(pos),
    ensures
        grid.place(pos, first).check_move(pos) == Err::<(), MoverError>(
            MoverError::AlreadyOccupied,
        ),
        grid.place(pos, first).place(pos, second) == grid.place(pos, first),
        grid.check_move(pos) is Ok ==> grid.place(pos, first).place(pos, second).get(pos) == Some(
            Cell::Occupied(first),
        ),
{
}

/// Reads are repeatable: two reads of the same cell of the same grid agree,
/// however many reads lie between them.
pub proof fn lemma_reads_agree(
    grid: Grid,
    pos: Coordinate,
    earlier: Option<Cell>,
    later: Option<Cell>,
)
    requires
        earlier == grid.get(pos),
        later == grid.get(pos),
    ensures
        earlier == later,
{
}

/// A move touches one cell: every other cell reads as before, and so do the
/// dimensions. A legal move leaves its mark in the cell it was made at.
pub proof fn lemma_move_touches_one_cell(
    grid: Grid,
    pos: Coordinate,
    player: Player,
    other: Coordinate,
)
    requires
        other != pos,
    ensures
        grid.place(pos, player).get(other) == grid.get(other),
        grid.place(pos, player).height == grid.height,
        grid.place(pos, player).width == grid.width,
        grid.check_move(pos) is Ok ==> grid.place(pos, player).get(pos) == Some(
            Cell::Occupied(player),
        ),
{
}

/// A mark is permanent: once a cell holds the mark of `owner`, no move of any
/// player at any coordinate changes what the cell holds.
pub proof fn lemma_marks_are_permanent(
    grid: Grid,
    pos: Coordinate,
    owner: Player,
    target: Coordinate,
    player: Player,
)
    requires
        grid.get(pos) == Some(Cell::Occupied(owner)),
    ensures
        grid.place(target, player).get(pos) == Some(Cell::Occupied(owner)),
{
}

/// A board of fixed dimensions. Cells start empty and are filled one at a
/// time by [`Board::make_move`]; a filled cell never changes again.
#[derive(Debug)]
pub struct Board {
    grid: Vec<Cell>,
    height: usize,
    width: usize,
}

impl View for Board {
    type V = Grid;

    closed spec fn view(&self) -> Grid {
        Grid {
            height: self.height as nat,
            width: self.width as nat,
            cells: Map::new(
                |at: (int, int)| 0 <= at.0 < self.height && 0 <= at.1 < self.width,
                |at: (int, int)| self.stored(at.0, at.1),
            ),
        }
    }
}

/// Row-major addresses stay below the number of cells.
proof fn lemma_index_in_range(height: int, width: int, row: int, col: int)
    by (nonlinear_arith)
    requires
        0 <= row < height,
        0 <= col < width,
    ensures
        0 <= row * width + col < height * width,
{
}

/// Two cells of a row-major layout share an address only if they are the same cell.
proof fn lemma_index_unique(width: int, row1: int, col1: int, row2: int, col2: int)
    by (nonlinear_arith)
    requires
        0 <= col1 < width,
        0 <= col2 < width,
        row1 * width + col1 == row2 * width + col2,
    ensures
        row1 == row2,
        col1 == col2,
{
}

impl Board {
    #[verifier::type_invariant]
    spec fn storage_matches_dimensions(self) -> bool {
        self.grid.len() == self.height * self.width
    }

    /// The cell that the storage holds for `(row, col)`: rows lie one after
    /// another, each `width` cells long.
    spec fn stored(self, row: int, col: int) -> Cell {
        self.grid@[row * self.width + col]
    }

    /// The dimensions of a board are machine numbers.
    pub proof fn lemma_dimensions_fit(self)
        ensures
            self@.height <= usize::MAX,
            self@.width <= usize::MAX,
    {
    }

    /// The grid of a board holds a cell for each address inside its
    /// dimensions and for no other.
    pub proof fn lemma_view_well_formed(self)
        ensures
            self@.well_formed(),
    {
    }

    /// A board of `height` rows and `width` columns with every cell empty.
    /// A board with a dimension of zero has no cell at all.
    pub fn new(height: usize, width: usize) -> (board: Board)
        requires
            height * width <= usize::MAX,
        ensures
            board@ == Grid::empty(height as nat, width as nat),
    {
        let board = Board { grid: vec![Cell::Empty; height * width], height, width };
        proof {
            assert forall|row: int, col: int| 0 <= row < height && 0 <= col < width implies
                #[trigger] board.stored(row, col) == Cell::Empty by {
                lemma_index_in_range(height as int, width as int, row, col);
            }
            assert(board@.cells =~= Grid::empty(height as nat, width as nat).cells);
        }
        board
    }

    /// The slot of the storage that holds the cell at `coord`.
    fn coord_to_idx(&self, coord: Coordinate) -> (idx: usize)
        requires
            self@.is_inside(coord),
        ensures
            idx == coord.row * self.width + coord.col,
            idx < self.grid.len(),
    {
        proof {
            use_type_invariant(self);
            lemma_index_in_range(
                self.height as int,
                self.width as int,
                coord.row as int,
                coord.col as int,
            );
        }
        coord.row * self.width + coord.col
    }

    /// Whether `coord` addresses no cell of this board.
    pub fn coord_outside(&self, coord: Coordinate) -> (outside: bool)
        ensures
            outside == !self@.is_inside(coord),
    {
        coord.row >= self.height || coord.col >= self.width
    }

    /// The content of the cell at `coord`, or `None` where there is no such cell.
    pub fn get_coord(&self, coord: Coordinate) -> (cell: Option<Cell>)
        ensures
            cell == self@.get(coord),
    {
        if self.coord_outside(coord) {
            return None;
        }
        let idx: usize = self.coord_to_idx(coord);
        Some(self.grid[idx])
    }

    /// Whether the cell at `coord` is free, or `None` where there is no such cell.
    pub fn is_coord_empty(&self, coord: Coordinate) -> (free: Option<bool>)
        ensures
            free == self@.is_empty(coord),
    {
        match self.get_coord(coord) {
            None => None,
            Some(Cell::Empty) => Some(true),
            Some(Cell::Occupied(_)) => Some(false),
        }
    }

    /// The player whose mark the cell at `coord` holds; `None` where the cell
    /// is free or does not exist.
    pub fn get(&self, coord: Coordinate) -> (owner: Option<Player>)
        ensures
            owner == self@.player_at(coord),
    {
        match self.get_coord(coord) {
            Some(Cell::Occupied(player)) => Some(player),
            _ => None,
        }
    }

    /// The number of rows.
    pub fn height(&self) -> (height: usize)
        ensures
            height == self@.height,
    {
        self.height
    }

    /// The number of columns.
    pub fn width(&self) -> (width: usize)
        ensures
            width == self@.width,
    {
        self.width
    }

    /// The line drawn between two rows.
    fn render_rule(&self) -> (line: Vec<char>)
        ensures
            line@ == self@.rule_line(),
    {
        let mut line: Vec<char> = Vec::new();
        line.push('+');
        let mut col: usize = 0;
        while col < self.width
            invariant
                col <= self.width,
                line@ == rule((2 * col + 1) as nat),
            decreases self.width - col,
        {
            line.push('-');
            line.push('+');
            col = col + 1;
            assert(line@ =~= rule((2 * col + 1) as nat));
        }
        line
    }

    /// The line that shows the row `row`.
    fn render_row(&self, row: usize) -> (line: Vec<char>)
        requires
            row < self@.height,
        ensures
            line@ == self@.row_line(row as int),
    {
        let mut line: Vec<char> = Vec::new();
        line.push('|');
        let mut col: usize = 0;
        while col < self.width
            invariant
                col <= self.width,
                row < self.height,
                line@ == self@.row_line(row as int).take(2 * col + 1),
            decreases self.width - col,
        {
            let shown = match self.get_coord(Coordinate { row, col }) {
                Some(Cell::Occupied(player)) => player.name,
                _ => ' ',
            };
            line.push(shown);
            line.push('|');
            col = col + 1;
            assert(line@ =~= self@.row_line(row as int).take(2 * col + 1));
        }
        assert(line@ =~= self@.row_line(row as int));
        line
    }

    /// Draws the board as text, line by line from the top: a rule, then each
    /// row followed by a rule. A row shows each cell between bars, a free
    /// cell as a blank and a taken one as the symbol of its player.
    pub fn render(&self) -> (lines: Vec<Vec<char>>)
        ensures
            lines.len() == self@.picture().len(),
            forall|i: int| 0 <= i < lines.len() ==> (#[trigger] lines[i])@ == self@.picture()[i],
    {
        let mut lines: Vec<Vec<char>> = Vec::new();
        lines.push(self.render_rule());
        let mut row: usize = 0;
        while row < self.height
            invariant
                row <= self.height,
                lines.len() == 2 * row + 1,
                forall|i: int|
                    0 <= i < lines.len() ==> (#[trigger] lines[i])@ == self@.picture()[i],
            decreases self.height - row,
        {
            lines.push(self.render_row(row));
            lines.push(self.render_rule());
            row = row + 1;
        }
        lines
    }

    /// Places the mark of `player` at `coord`. The move is refused, and the
    /// board left as it was, where `coord` is outside the board or the cell is
    /// taken. A legal move changes that one cell and no other.
    pub fn make_move(&mut self, coord: Coordinate, player: Player) -> (outcome: Result<
        (),
        MoverError,
    >)
        ensures
            outcome == old(self)@.check_move(coord),
            final(self)@ == old(self)@.place(coord, player),
    {
        match self.get_coord(coord) {
            None => Err(MoverError::OutOfBounds),
            Some(Cell::Occupied(_)) => Err(MoverError::AlreadyOccupied),
            Some(Cell::Empty) => {
                let idx: usize = self.coord_to_idx(coord);
                proof {
                    use_type_invariant(&*self);
                }
                // The storage is written while the board owns a stand-in, so
                // that the board is whole at every step.
                let mut taken = Board { grid: Vec::new(), height: 0, width: 0 };
                std::mem::swap(self, &mut taken);
                let Board { grid, height, width } = taken;
                let mut grid = grid;
                grid.set(idx, Cell::Occupied(player));
                *self = Board { grid, height, width };
                proof {
                    let width = self.width as int;
                    assert forall|row: int, col: int|
                        0 <= row < self.height && 0 <= col < width && (row, col) != (
                            coord.row as int,
                            coord.col as int,
                        ) implies #[trigger] self.stored(row, col) == old(self).stored(row, col) by {
                        lemma_index_in_range(self.height as int, width, row, col);
                        if row * width + col == idx {
                            lemma_index_unique(width, row, col, coord.row as int, coord.col as int);
                        }
                    }
                    assert(self@.cells =~= old(self)@.place(coord, player).cells);
                }
                Ok(())
            },
        }
    }
}

} // verus!
