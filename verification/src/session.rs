use vstd::prelude::*;

verus! {

/// What can happen to the panel of a front end.
#[derive(Clone, Copy, Debug, PartialEq, Eq, Structural)]
pub enum Msg {
    /// Time has passed; nothing else has.
    Tick,
    /// The cell with this index was clicked.
    MakeMove(usize),
}

/// The state behind the panel of a front end: a rectangle of cells, stored
/// row after row, each of them free (`None`) or taken.
#[derive(Debug)]
pub struct App {
    board: Vec<Option<usize>>,
    cellules_width: usize,
    cellules_height: usize,
}

impl View for App {
    type V = Seq<Option<usize>>;

    closed spec fn view(&self) -> Seq<Option<usize>> {
        self.board@
    }
}

/// The cells after the one at `idx` was clicked: a free cell is taken by
/// player 1, a taken cell is freed, and the others stay as they are.
pub open spec fn clicked(cells: Seq<Option<usize>>, idx: int) -> Seq<Option<usize>> {
    cells.update(
        idx,
        if cells[idx] is None {
            Some(1usize)
        } else {
            None
        },
    )
}

/// The cells after `msg` was handled.
pub open spec fn handled(cells: Seq<Option<usize>>, msg: Msg) -> Seq<Option<usize>> {
    match msg {
        Msg::Tick => cells,
        Msg::MakeMove(idx) => clicked(cells, idx as int),
    }
}

impl App {
    /// The number of cells in a row.
    pub closed spec fn columns(&self) -> nat {
        self.cellules_width as nat
    }

    /// The number of rows.
    pub closed spec fn rows(&self) -> nat {
        self.cellules_height as nat
    }

    /// A panel of three rows of three cells, all of them free.
    pub fn create() -> (app: App)
        ensures
            app.columns() == 3,
            app.rows() == 3,
            app@ == Seq::new(9, |i: int| None::<usize>),
    {
        let cellules_width: usize = 3;
        let cellules_height: usize = 3;
        let board = vec![None; cellules_height * cellules_width];
        let app = App { board, cellules_width, cellules_height };
        assert(app@ =~= Seq::new(9, |i: int| None::<usize>));
        app
    }

    /// Handles one message and says whether the panel has to be drawn again,
    /// which it always has. A click must name a cell of the panel.
    pub fn update(&mut self, msg: Msg) -> (redraw: bool)
        requires
            msg matches Msg::MakeMove(idx) ==> idx < old(self)@.len(),
        ensures
            redraw,
            final(self)@ == handled(old(self)@, msg),
            final(self).columns() == old(self).columns(),
            final(self).rows() == old(self).rows(),
    {
        match msg {
            Msg::MakeMove(idx) => {
                let flipped = match self.board[idx] {
                    None => Some(1),
                    _ => None,
                };
                self.board.set(idx, flipped);
                true
            },
            Msg::Tick => true,
        }
    }

    /// The cells, row after row.
    pub fn cells(&self) -> (cells: &Vec<Option<usize>>)
        ensures
            cells@ == self@,
    {
        &self.board
    }

    /// The number of cells in a row.
    pub fn cellules_width(&self) -> (width: usize)
        ensures
            width == self.columns(),
    {
        self.cellules_width
    }

    /// The number of rows.
    pub fn cellules_height(&self) -> (height: usize)
        ensures
            height == self.rows(),
    {
        self.cellules_height
    }
}

} // verus!
