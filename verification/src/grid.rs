//! The automaton engine: a fixed-size toroidal grid of cells and the
//! standard birth/survival rule.

use crate::random::{after_ratio_draw, draw_ratio, entropy_rng, ratio_draw};
use rand::rngs::StdRng;
use vstd::prelude::*;

verus! {

/// The chance that randomizing makes a cell alive is `ALIVE_CHANCE` in
/// `CHANCE_SCALE`: one half.
pub const ALIVE_CHANCE: u32 = 1;

/// What `ALIVE_CHANCE` is counted out of.
pub const CHANCE_SCALE: u32 = 2;

/// The state of one cell.
#[derive(Debug, PartialEq, Eq, Clone, Copy, Structural)]
pub enum CellState {
    Dead,
    Alive,
}

/// A rectangular board: at least one row, at least one column, and every row
/// as long as the first.
pub open spec fn well_shaped(b: Seq<Seq<CellState>>) -> bool {
    &&& b.len() >= 1
    &&& b[0].len() >= 1
    &&& forall|r: int| 0 <= r < b.len() ==> (#[trigger] b[r]).len() == b[0].len()
}

/// Number of rows of a board.
pub open spec fn rows(b: Seq<Seq<CellState>>) -> int {
    b.len() as int
}

/// Number of columns of a board.
pub open spec fn cols(b: Seq<Seq<CellState>>) -> int {
    b[0].len() as int
}

/// The place on a ring of `n` places that index `i` falls on: `i` modulo
/// `n`. Kept opaque, so that a remainder by a variable reaches the solver
/// only where a proof asks for it.
#[verifier::opaque]
pub open spec fn wrap(i: int, n: int) -> int {
    i % n
}

/// Whether the cell at `(r, c)` is alive, with both indices wrapped around
/// the board's dimensions: the board is a torus.
pub open spec fn lives(b: Seq<Seq<CellState>>, r: int, c: int) -> bool {
    b[wrap(r, rows(b))][wrap(c, cols(b))] == CellState::Alive
}

/// One for a live cell, zero for a dead one.
pub open spec fn tally(alive: bool) -> nat {
    if alive {
        1
    } else {
        0
    }
}

/// How many of the eight cells around `(r, c)` are alive. On a board with
/// fewer than three rows or columns a cell is met more than once, and is
/// counted each time. Kept opaque: `lemma_neighbor_count` unfolds it for a
/// cell inside the board.
#[verifier::opaque]
pub open spec fn neighbor_count(b: Seq<Seq<CellState>>, r: int, c: int) -> nat {
    tally(lives(b, r - 1, c - 1)) + tally(lives(b, r - 1, c)) + tally(lives(b, r - 1, c + 1))
        + tally(lives(b, r, c - 1)) + tally(lives(b, r, c + 1)) + tally(lives(b, r + 1, c - 1))
        + tally(lives(b, r + 1, c)) + tally(lives(b, r + 1, c + 1))
}

/// The rule: a live cell with two or three live neighbours lives on, a dead
/// cell with exactly three comes alive, every other cell is dead.
pub open spec fn rule(state: CellState, neighbors: nat) -> CellState {
    if state == CellState::Alive && (neighbors == 2 || neighbors == 3) {
        CellState::Alive
    } else if state == CellState::Dead && neighbors == 3 {
        CellState::Alive
    } else {
        CellState::Dead
    }
}

/// The next generation of a board.
pub open spec fn step(b: Seq<Seq<CellState>>) -> Seq<Seq<CellState>> {
    Seq::new(
        b.len(),
        |r: int| Seq::new(b[0].len(), |c: int| rule(b[r][c], neighbor_count(b, r, c))),
    )
}

/// The board of the given size on which every cell is dead.
pub open spec fn barren(width: int, height: int) -> Seq<Seq<CellState>> {
    Seq::new(height as nat, |r: int| Seq::new(width as nat, |c: int| CellState::Dead))
}

/// The state that a draw stands for: alive when it is `true`.
pub open spec fn state_of(alive: bool) -> CellState {
    if alive {
        CellState::Alive
    } else {
        CellState::Dead
    }
}

/// The board of the given size filled from a sequence of draws in row-major
/// order: the cell at `(r, c)` is alive exactly when draw `r * width + c` is
/// `true`.
pub open spec fn board_of_draws(draws: Seq<bool>, width: int, height: int) -> Seq<Seq<CellState>> {
    Seq::new(
        height as nat,
        |r: int| Seq::new(width as nat, |c: int| state_of(draws[r * width + c])),
    )
}

/// The state of a generator after `count` draws at the odds of a live cell,
/// made one after the other from the state of `rng`.
pub open spec fn rng_after(rng: StdRng, count: nat) -> StdRng
    decreases count,
{
    if count == 0 {
        rng
    } else {
        after_ratio_draw(rng_after(rng, (count - 1) as nat), ALIVE_CHANCE, CHANCE_SCALE)
    }
}

/// The first `count` draws at the odds of a live cell that a generator in
/// the state of `rng` gives, in the order in which they are made.
pub open spec fn drawn(rng: StdRng, count: nat) -> Seq<bool> {
    Seq::new(count, |i: int| ratio_draw(rng_after(rng, i as nat), ALIVE_CHANCE, CHANCE_SCALE))
}

/// The board of the given size randomized from a generator in the state of
/// `rng`: one draw for each cell, made and laid out in row-major order.
pub open spec fn randomized_board(rng: StdRng, width: int, height: int) -> Seq<Seq<CellState>> {
    board_of_draws(drawn(rng, (width * height) as nat), width, height)
}

/// Whether a board of the given size is what some generator randomizes it
/// to.
pub open spec fn is_randomized(board: Seq<Seq<CellState>>, width: int, height: int) -> bool {
    exists|source: StdRng| board == #[trigger] randomized_board(source, width, height)
}

/// The board that a vector of rows stands for.
pub open spec fn board_of(cells: Vec<Vec<CellState>>) -> Seq<Seq<CellState>> {
    Seq::new(cells@.len(), |r: int| cells@[r]@)
}

/// Whether a vector of rows has `height` rows of `width` cells each.
spec fn shaped(cells: Vec<Vec<CellState>>, width: int, height: int) -> bool {
    &&& cells@.len() == height
    &&& forall|r: int| 0 <= r < height ==> (#[trigger] cells@[r])@.len() == width
}

/// A vector of rows has a shape exactly when the board it stands for is
/// well shaped, and the shape is then the board's.
proof fn lemma_shape_of_board(cells: Vec<Vec<CellState>>)
    ensures
        well_shaped(board_of(cells)) <==> (rows(board_of(cells)) >= 1 && cols(board_of(cells)) >= 1
            && shaped(cells, cols(board_of(cells)), rows(board_of(cells)))),
{
    let b = board_of(cells);
    if well_shaped(b) {
        assert forall|r: int| 0 <= r < rows(b) implies (#[trigger] cells@[r])@.len() == cols(
            b,
        ) by {
            assert(b[r].len() == b[0].len());
        }
    }
    if rows(b) >= 1 && cols(b) >= 1 && shaped(cells, cols(b), rows(b)) {
        assert forall|r: int| 0 <= r < b.len() implies (#[trigger] b[r]).len() == b[0].len() by {
            assert(cells@[r]@.len() == cols(b));
        }
    }
}

/// The grid: the live cells, and a scratch buffer of the same shape into
/// which the next generation is written.
pub struct Grid {
    pub cells: Vec<Vec<CellState>>,
    next_cells: Vec<Vec<CellState>>,
}

impl View for Grid {
    type V = Seq<Seq<CellState>>;

    closed spec fn view(&self) -> Seq<Seq<CellState>> {
        board_of(self.cells)
    }
}

fn dead_row(width: usize) -> (row: Vec<CellState>)
    ensures
        row@ == Seq::new(width as nat, |c: int| CellState::Dead),
{
    let mut row: Vec<CellState> = Vec::new();
    let mut c: usize = 0;
    while c < width
        invariant
            c <= width,
            row@ == Seq::new(c as nat, |c: int| CellState::Dead),
        decreases width - c,
    {
        row.push(CellState::Dead);
        c = c + 1;
    }
    row
}

fn dead_cells(width: usize, height: usize) -> (cells: Vec<Vec<CellState>>)
    ensures
        shaped(cells, width as int, height as int),
        board_of(cells) == barren(width as int, height as int),
{
    let mut cells: Vec<Vec<CellState>> = Vec::new();
    let mut r: usize = 0;
    while r < height
        invariant
            r <= height,
            cells@.len() == r,
            forall|i: int|
                0 <= i < r ==> (#[trigger] cells@[i])@ == Seq::new(
                    width as nat,
                    |c: int| CellState::Dead,
                ),
        decreases height - r,
    {
        let row = dead_row(width);
        cells.push(row);
        r = r + 1;
    }
    cells
}

impl Grid {
    /// Whether the scratch buffer has the shape of the live cells.
    pub closed spec fn scratch_fits(&self) -> bool {
        shaped(self.next_cells, cols(board_of(self.cells)), rows(board_of(self.cells)))
    }

    /// The grid's invariant: a rectangular board of positive dimensions and
    /// a scratch buffer of the same shape.
    pub open spec fn wf(&self) -> bool {
        &&& well_shaped(self@)
        &&& self.scratch_fits()
    }

    /// Number of columns.
    pub open spec fn width(&self) -> int {
        cols(self@)
    }

    /// Number of rows.
    pub open spec fn height(&self) -> int {
        rows(self@)
    }

    /// Number of columns.
    pub fn columns(&self) -> (width: usize)
        requires
            self.wf(),
        ensures
            width == self.width(),
            width >= 1,
    {
        self.cells[0].len()
    }

    /// Number of rows.
    pub fn rows(&self) -> (height: usize)
        requires
            self.wf(),
        ensures
            height == self.height(),
            height >= 1,
    {
        self.cells.len()
    }

    /// The state of the cell at `(row, col)`.
    pub fn cell(&self, row: usize, col: usize) -> (state: CellState)
        requires
            self.wf(),
            row < self.height(),
            col < self.width(),
        ensures
            state == self@[row as int][col as int],
    {
        self.cells[row][col]
    }

    /// A grid of the given size with every cell dead.
    pub fn new(width: usize, height: usize) -> (grid: Grid)
        requires
            width >= 1,
            height >= 1,
        ensures
            grid.wf(),
            grid@ == barren(width as int, height as int),
    {
        Grid { cells: dead_cells(width, height), next_cells: dead_cells(width, height) }
    }

    /// A grid of the given size with every cell dead, or `None` where a
    /// dimension is zero: a grid has at least one cell.
    pub fn try_new(width: usize, height: usize) -> (grid: Option<Grid>)
        ensures
            grid is Some <==> width >= 1 && height >= 1,
            grid matches Some(g) ==> g.wf() && g@ == barren(width as int, height as int),
    {
        if width == 0 || height == 0 {
            None
        } else {
            Some(Grid::new(width, height))
        }
    }

    /// Whether the grid's invariant holds. The live cells can be reached
    /// from outside, so a caller that verified code does not watch can
    /// break the invariant, and can test it here before it goes on.
    pub fn is_consistent(&self) -> (consistent: bool)
        ensures
            consistent == self.wf(),
    {
        let height = self.cells.len();
        if height == 0 || self.next_cells.len() != height {
            return false;
        }
        let width = self.cells[0].len();
        if width == 0 {
            return false;
        }
        let mut row: usize = 0;
        while row < height
            invariant
                row <= height,
                height == self.cells@.len(),
                height == self.next_cells@.len(),
                width == self.cells@[0]@.len(),
                width >= 1,
                forall|r: int| 0 <= r < row ==> (#[trigger] self.cells@[r])@.len() == width,
                forall|r: int| 0 <= r < row ==> (#[trigger] self.next_cells@[r])@.len() == width,
            decreases height - row,
        {
            if self.cells[row].len() != width || self.next_cells[row].len() != width {
                proof {
                    lemma_shape_of_board(self.cells);
                }
                return false;
            }
            row = row + 1;
        }
        proof {
            lemma_shape_of_board(self.cells);
        }
        true
    }

    /// Fills the grid from `draws`, taken in row-major order: a `true` draw
    /// makes a live cell. The grid takes the draws only if there is exactly
    /// one for each cell; otherwise it is left as it was.
    pub fn seed(&mut self, draws: &Vec<bool>) -> (seeded: bool)
        requires
            old(self).wf(),
        ensures
            final(self).wf(),
            seeded == (draws@.len() == old(self).width() * old(self).height()),
            seeded ==> final(self)@ == board_of_draws(
                draws@,
                old(self).width(),
                old(self).height(),
            ),
            !seeded ==> final(self)@ == old(self)@,
    {
        let height = self.cells.len();
        let width = self.cells[0].len();
        proof {
            lemma_shape_of_board(self.cells);
        }
        if !holds_product(draws.len(), width, height) {
            return false;
        }
        let mut row: usize = 0;
        while row < height
            invariant
                row <= height,
                width >= 1,
                height >= 1,
                shaped(self.cells, width as int, height as int),
                self.next_cells == old(self).next_cells,
                draws@.len() == width * height,
                width * height <= usize::MAX,
                forall|r: int, c: int|
                    0 <= r < row && 0 <= c < width ==> #[trigger] self.cells@[r]@[c] == state_of(
                        draws@[r * width + c],
                    ),
            decreases height - row,
        {
            let mut col: usize = 0;
            while col < width
                invariant
                    row < height,
                    col <= width,
                    width >= 1,
                    height >= 1,
                    shaped(self.cells, width as int, height as int),
                    self.next_cells == old(self).next_cells,
                    draws@.len() == width * height,
                    width * height <= usize::MAX,
                    forall|r: int, c: int|
                        0 <= r < row && 0 <= c < width ==> #[trigger] self.cells@[r]@[c]
                            == state_of(draws@[r * width + c]),
                    forall|c: int|
                        0 <= c < col ==> #[trigger] self.cells@[row as int]@[c] == state_of(
                            draws@[row * width + c],
                        ),
                decreases width - col,
            {
                proof {
                    lemma_row_major_index(row as int, col as int, width as int, height as int);
                }
                let index = row * width + col;
                self.cells[row][col] = cell_of(draws[index]);
                col = col + 1;
            }
            row = row + 1;
        }
        proof {
            lemma_shape_of_board(self.cells);
            assert(self@ =~~= board_of_draws(draws@, width as int, height as int));
        }
        true
    }

    /// Gives every cell a state drawn from `rng`: alive with probability one
    /// half, each cell on its own. The draws are made in row-major order,
    /// one for each cell and no other, and the grid is seeded from them. So
    /// generators in one state give one pattern, and are left in one state.
    pub fn randomize_with_rng(&mut self, rng: &mut StdRng)
        requires
            old(self).wf(),
        ensures
            final(self).wf(),
            final(self).width() == old(self).width(),
            final(self).height() == old(self).height(),
            final(self)@ == randomized_board(*old(rng), old(self).width(), old(self).height()),
            *final(rng) == rng_after(
                *old(rng),
                (old(self).width() * old(self).height()) as nat,
            ),
    {
        let draws = sample_draws(rng, self.columns(), self.rows());
        self.seed(&draws);
    }

    /// Gives every cell a random state, alive with probability one half,
    /// from a generator seeded by the thread-local one. The pattern is one
    /// that a generator gives; which generator, chance decides.
    pub fn randomize(&mut self)
        requires
            old(self).wf(),
        ensures
            final(self).wf(),
            final(self).width() == old(self).width(),
            final(self).height() == old(self).height(),
            is_randomized(final(self)@, old(self).width(), old(self).height()),
    {
        let mut rng = entropy_rng();
        self.randomize_with_rng(&mut rng);
    }

    /// Advances the grid by one generation and says whether anything
    /// changed. The next generation is written into the scratch buffer; the
    /// two buffers change places only where they differ. Every cell
    /// becomes what the rule makes of it and of its eight neighbours; a
    /// grid on which the rule leaves every cell as it is stays as it is,
    /// and `false` is returned for it.
    pub fn advance(&mut self) -> (changed: bool)
        requires
            old(self).wf(),
        ensures
            final(self).wf(),
            final(self)@ == step(old(self)@),
            changed == (final(self)@ != old(self)@),
            final(self).width() == old(self).width(),
            final(self).height() == old(self).height(),
            forall|r: int, c: int|
                0 <= r < old(self).height() && 0 <= c < old(self).width()
                    ==> #[trigger] final(self)@[r][c] == rule(
                    old(self)@[r][c],
                    neighbor_count(old(self)@, r, c),
                ),
            (forall|r: int, c: int|
                0 <= r < old(self).height() && 0 <= c < old(self).width() ==> #[trigger] settled(
                    old(self)@,
                    r,
                    c,
                )) ==> !changed && final(self)@ == old(self)@,
    {
        proof {
            lemma_step_cells(self@);
            lemma_still_life(self@);
        }
        let height = self.cells.len();
        let width = self.cells[0].len();
        let mut row: usize = 0;
        while row < height
            invariant
                row <= height,
                well_shaped(self@),
                shaped(self.next_cells, width as int, height as int),
                self.cells == old(self).cells,
                height == self.height(),
                width == self.width(),
                forall|r: int, c: int|
                    0 <= r < row && 0 <= c < width ==> #[trigger] self.next_cells@[r]@[c] == rule(
                        self@[r][c],
                        neighbor_count(self@, r, c),
                    ),
            decreases height - row,
        {
            let mut col: usize = 0;
            while col < width
                invariant
                    row < height,
                    col <= width,
                    well_shaped(self@),
                    shaped(self.next_cells, width as int, height as int),
                    self.cells == old(self).cells,
                    height == self.height(),
                    width == self.width(),
                    forall|r: int, c: int|
                        0 <= r < row && 0 <= c < width ==> #[trigger] self.next_cells@[r]@[c]
                            == rule(self@[r][c], neighbor_count(self@, r, c)),
                    forall|c: int|
                        0 <= c < col ==> #[trigger] self.next_cells@[row as int]@[c] == rule(
                            self@[row as int][c],
                            neighbor_count(self@, row as int, c),
                        ),
                decreases width - col,
            {
                let neighbors = self.alive_neighbors(row, col);
                assert(self@[row as int].len() == width);
                let state = self.cells[row][col];
                self.next_cells[row][col] = next_state(state, neighbors);
                col = col + 1;
            }
            row = row + 1;
        }
        assert(board_of(self.next_cells) =~~= step(self@));
        if self.scratch_is_same() {
            return false;
        }
        proof {
            lemma_shape_of_board(self.cells);
            lemma_shape_of_board(self.next_cells);
        }
        std::mem::swap(&mut self.cells, &mut self.next_cells);
        true
    }

    /// Whether the scratch buffer holds exactly the live cells.
    fn scratch_is_same(&self) -> (same: bool)
        requires
            self.wf(),
        ensures
            same == (board_of(self.next_cells) == self@),
    {
        let height = self.cells.len();
        let width = self.cells[0].len();
        let mut row: usize = 0;
        while row < height
            invariant
                row <= height,
                self.wf(),
                height == self.height(),
                width == self.width(),
                forall|r: int, c: int|
                    0 <= r < row && 0 <= c < width ==> #[trigger] self.next_cells@[r]@[c]
                        == self@[r][c],
            decreases height - row,
        {
            let mut col: usize = 0;
            while col < width
                invariant
                    row < height,
                    col <= width,
                    self.wf(),
                    height == self.height(),
                    width == self.width(),
                    forall|r: int, c: int|
                        0 <= r < row && 0 <= c < width ==> #[trigger] self.next_cells@[r]@[c]
                            == self@[r][c],
                    forall|c: int|
                        0 <= c < col ==> #[trigger] self.next_cells@[row as int]@[c]
                            == self@[row as int][c],
                decreases width - col,
            {
                assert(self@[row as int].len() == width);
                if self.cells[row][col] != self.next_cells[row][col] {
                    assert(board_of(self.next_cells)[row as int][col as int]
                        != self@[row as int][col as int]);
                    return false;
                }
                col = col + 1;
            }
            row = row + 1;
        }
        assert(board_of(self.next_cells) =~~= self@);
        true
    }

    /// Counts the live cells among the eight neighbours of `(row, col)`,
    /// wrapping around the edges.
    pub fn alive_neighbors(&self, row: usize, col: usize) -> (count: usize)
        requires
            self.wf(),
            row < self.height(),
            col < self.width(),
        ensures
            count == neighbor_count(self@, row as int, col as int),
            count <= 8,
    {
        let height = self.cells.len();
        let width = self.cells[0].len();

        let top = place_before(row, height);
        let bottom = place_after(row, height);
        let left = place_before(col, width);
        let right = place_after(col, width);

        proof {
            lemma_neighbor_count(self@, row as int, col as int);
        }
        let above = count_of(self.cells[top][left]) + count_in_pair(&self.cells[top], col, right);
        let beside = count_in_pair(&self.cells[row], left, right);
        let below = count_of(self.cells[bottom][left]) + count_in_pair(
            &self.cells[bottom],
            col,
            right,
        );
        above + beside + below
    }
}

/// The place before `i` on a ring of `n` places.
fn place_before(i: usize, n: usize) -> (p: usize)
    requires
        i < n,
    ensures
        p < n,
        p == ring_prev(i as int, n as int),
{
    if i == 0 {
        n - 1
    } else {
        i - 1
    }
}

/// The place after `i` on a ring of `n` places.
fn place_after(i: usize, n: usize) -> (p: usize)
    requires
        i < n,
    ensures
        p < n,
        p == ring_next(i as int, n as int),
{
    if i == n - 1 {
        0
    } else {
        i + 1
    }
}

/// Makes `width * height` draws from `rng`, one after the other, each
/// `true` with a chance of `ALIVE_CHANCE` in `CHANCE_SCALE`.
fn sample_draws(rng: &mut StdRng, width: usize, height: usize) -> (draws: Vec<bool>)
    ensures
        draws@.len() == width * height,
        draws@ == drawn(*old(rng), (width * height) as nat),
        *final(rng) == rng_after(*old(rng), (width * height) as nat),
{
    let mut draws: Vec<bool> = Vec::new();
    let mut row: usize = 0;
    while row < height
        invariant
            row <= height,
            draws@.len() == row * width,
            draws@ == drawn(*old(rng), (row * width) as nat),
            *rng == rng_after(*old(rng), (row * width) as nat),
        decreases height - row,
    {
        let mut col: usize = 0;
        while col < width
            invariant
                col <= width,
                draws@.len() == row * width + col,
                draws@ == drawn(*old(rng), (row * width + col) as nat),
                *rng == rng_after(*old(rng), (row * width + col) as nat),
            decreases width - col,
        {
            let heads = draw_ratio(rng, ALIVE_CHANCE, CHANCE_SCALE);
            draws.push(heads);
            col = col + 1;
            assert(draws@ =~= drawn(*old(rng), (row * width + col) as nat));
        }
        assert((row + 1) * width == row * width + width) by (nonlinear_arith);
        row = row + 1;
    }
    assert(height * width == width * height) by (nonlinear_arith);
    draws
}

/// Whether `n` is the product of `width` and `height`.
fn holds_product(n: usize, width: usize, height: usize) -> (holds: bool)
    ensures
        holds == (n == width * height),
{
    match width.checked_mul(height) {
        Some(product) => product == n,
        None => false,
    }
}

/// The state that a draw stands for.
fn cell_of(alive: bool) -> (state: CellState)
    ensures
        state == state_of(alive),
{
    if alive {
        CellState::Alive
    } else {
        CellState::Dead
    }
}

/// The row-major index of a cell lies inside the board.
proof fn lemma_row_major_index(r: int, c: int, width: int, height: int)
    requires
        0 <= r < height,
        0 <= c < width,
    ensures
        0 <= r * width + c < width * height,
        r * width >= 0,
{
    assert(r * width + c < width * height) by (nonlinear_arith)
        requires
            0 <= r < height,
            0 <= c < width,
    ;
    assert(r * width >= 0) by (nonlinear_arith)
        requires
            0 <= r,
            0 <= width,
    ;
}

/// Applies the rule to one cell.
fn next_state(state: CellState, neighbors: usize) -> (next: CellState)
    ensures
        next == rule(state, neighbors as nat),
{
    if state == CellState::Alive && (neighbors == 2 || neighbors == 3) {
        CellState::Alive
    } else if state == CellState::Dead && neighbors == 3 {
        CellState::Alive
    } else {
        CellState::Dead
    }
}

/// The number of live cells among two places of a row.
fn count_in_pair(row: &Vec<CellState>, first: usize, second: usize) -> (n: usize)
    requires
        first < row@.len(),
        second < row@.len(),
    ensures
        n == tally(row@[first as int] == CellState::Alive) + tally(
            row@[second as int] == CellState::Alive,
        ),
{
    count_of(row[first]) + count_of(row[second])
}

/// One for a live cell, zero for a dead one.
fn count_of(state: CellState) -> (n: usize)
    ensures
        n == tally(state == CellState::Alive),
{
    if state == CellState::Alive {
        1
    } else {
        0
    }
}

/// The place before `i` on a ring of `n` places.
pub open spec fn ring_prev(i: int, n: int) -> int {
    if i == 0 {
        n - 1
    } else {
        i - 1
    }
}

/// The place after `i` on a ring of `n` places.
pub open spec fn ring_next(i: int, n: int) -> int {
    if i == n - 1 {
        0
    } else {
        i + 1
    }
}

/// The neighbour count of a cell inside the board, written without
/// remainders: the rows above and below and the columns left and right are
/// the ring's previous and next places.
pub proof fn lemma_neighbor_count(b: Seq<Seq<CellState>>, r: int, c: int)
    requires
        well_shaped(b),
        0 <= r < rows(b),
        0 <= c < cols(b),
    ensures
        neighbor_count(b, r, c) == ({
            let top = ring_prev(r, rows(b));
            let bottom = ring_next(r, rows(b));
            let left = ring_prev(c, cols(b));
            let right = ring_next(c, cols(b));
            tally(b[top][left] == CellState::Alive) + tally(b[top][c] == CellState::Alive) + tally(
                b[top][right] == CellState::Alive,
            ) + tally(b[r][left] == CellState::Alive) + tally(b[r][right] == CellState::Alive)
                + tally(b[bottom][left] == CellState::Alive) + tally(
                b[bottom][c] == CellState::Alive,
            ) + tally(b[bottom][right] == CellState::Alive)
        }),
{
    reveal(neighbor_count);
    lemma_wrap_around(r, rows(b));
    lemma_wrap_around(c, cols(b));
}

/// Where the indices next to `i` fall on a ring of `n` places.
proof fn lemma_wrap_around(i: int, n: int)
    requires
        0 <= i < n,
    ensures
        wrap(i, n) == i,
        wrap(i - 1, n) == ring_prev(i, n),
        wrap(i + 1, n) == ring_next(i, n),
{
    reveal(wrap);
    vstd::arithmetic::div_mod::lemma_small_mod(i as nat, n as nat);
    if i == 0 {
        vstd::arithmetic::div_mod::lemma_mod_add_multiples_vanish(-1, n);
        vstd::arithmetic::div_mod::lemma_small_mod((n - 1) as nat, n as nat);
    } else {
        vstd::arithmetic::div_mod::lemma_small_mod((i - 1) as nat, n as nat);
    }
    if i == n - 1 {
        vstd::arithmetic::div_mod::lemma_mod_self_0(n);
    } else {
        vstd::arithmetic::div_mod::lemma_small_mod((i + 1) as nat, n as nat);
    }
}

/// Whether the rule leaves the cell at `(r, c)` as it is.
pub open spec fn settled(b: Seq<Seq<CellState>>, r: int, c: int) -> bool {
    &&& b[r][c] == CellState::Alive ==> neighbor_count(b, r, c) == 2 || neighbor_count(b, r, c)
        == 3
    &&& b[r][c] == CellState::Dead ==> neighbor_count(b, r, c) != 3
}

/// Whether the rule kills the cell at `(r, c)` or leaves it dead.
pub open spec fn doomed(b: Seq<Seq<CellState>>, r: int, c: int) -> bool {
    &&& b[r][c] == CellState::Alive ==> neighbor_count(b, r, c) != 2 && neighbor_count(b, r, c)
        != 3
    &&& b[r][c] == CellState::Dead ==> neighbor_count(b, r, c) != 3
}

/// The next generation has the shape of the board it comes from, and each
/// of its cells is what the rule makes of the cell before it.
pub proof fn lemma_step_cells(b: Seq<Seq<CellState>>)
    requires
        well_shaped(b),
    ensures
        well_shaped(step(b)),
        rows(step(b)) == rows(b),
        cols(step(b)) == cols(b),
        forall|r: int, c: int|
            0 <= r < rows(b) && 0 <= c < cols(b) ==> #[trigger] step(b)[r][c] == rule(
                b[r][c],
                neighbor_count(b, r, c),
            ),
{
    assert forall|r: int| 0 <= r < step(b).len() implies (#[trigger] step(b)[r]).len() == step(
        b,
    )[0].len() by {}
}

/// Still life: a board on which every live cell has two or three live
/// neighbours and no dead cell has exactly three is its own next
/// generation, and only such a board is. On it `advance` returns `false`
/// and leaves every cell as it was.
pub proof fn lemma_still_life(b: Seq<Seq<CellState>>)
    requires
        well_shaped(b),
    ensures
        step(b) == b <==> forall|r: int, c: int|
            0 <= r < rows(b) && 0 <= c < cols(b) ==> #[trigger] settled(b, r, c),
{
    lemma_step_cells(b);
    if forall|r: int, c: int| 0 <= r < rows(b) && 0 <= c < cols(b) ==> #[trigger] settled(b, r, c) {
        assert forall|r: int| 0 <= r < rows(b) implies #[trigger] step(b)[r] == b[r] by {
            assert forall|c: int| 0 <= c < cols(b) implies #[trigger] step(b)[r][c] == b[r][c] by {
                assert(settled(b, r, c));
            }
        }
        assert(step(b) =~= b);
    }
    if step(b) == b {
        assert forall|r: int, c: int|
            0 <= r < rows(b) && 0 <= c < cols(b) implies #[trigger] settled(b, r, c) by {
            assert(step(b)[r][c] == rule(b[r][c], neighbor_count(b, r, c)));
        }
    }
}

/// A board on which no live cell has two or three live neighbours and no
/// dead cell has exactly three has no live cell in its next generation. So
/// `advance` leaves such a board unchanged exactly when no cell on it is
/// alive; with a live cell on it, `advance` kills that cell and returns
/// `true`.
pub proof fn lemma_no_survivors(b: Seq<Seq<CellState>>)
    requires
        well_shaped(b),
        forall|r: int, c: int| 0 <= r < rows(b) && 0 <= c < cols(b) ==> #[trigger] doomed(b, r, c),
    ensures
        step(b) == barren(cols(b), rows(b)),
        step(b) == b <==> b == barren(cols(b), rows(b)),
{
    lemma_step_cells(b);
    assert forall|r: int| 0 <= r < rows(b) implies #[trigger] step(b)[r] == barren(
        cols(b),
        rows(b),
    )[r] by {
        assert forall|c: int| 0 <= c < cols(b) implies #[trigger] step(b)[r][c]
            == CellState::Dead by {
            assert(doomed(b, r, c));
        }
        assert(step(b)[r] =~= barren(cols(b), rows(b))[r]);
    }
    assert(step(b) =~~= barren(cols(b), rows(b)));
}

/// A board without a live cell is its own next generation: no cell on it
/// has a live neighbour, so no live cell has two or three and no dead cell
/// has three. On it `advance` returns `false` and changes nothing.
pub proof fn lemma_barren_is_fixed(b: Seq<Seq<CellState>>)
    requires
        well_shaped(b),
        forall|r: int, c: int|
            0 <= r < rows(b) && 0 <= c < cols(b) ==> #[trigger] b[r][c] == CellState::Dead,
    ensures
        forall|r: int, c: int| 0 <= r < rows(b) && 0 <= c < cols(b) ==> #[trigger] doomed(b, r, c),
        step(b) == b,
{
    assert forall|r: int, c: int| 0 <= r < rows(b) && 0 <= c < cols(b) implies #[trigger] doomed(
        b,
        r,
        c,
    ) by {
        lemma_neighbor_count(b, r, c);
    }
    lemma_no_survivors(b);
    assert(b =~~= barren(cols(b), rows(b)));
}

/// Loneliness: a live cell with fewer than two live neighbours, and so one
/// whose eight neighbours are all dead, is dead in the next generation.
pub proof fn lemma_lonely_cell_dies(b: Seq<Seq<CellState>>, r: int, c: int)
    requires
        well_shaped(b),
        0 <= r < rows(b),
        0 <= c < cols(b),
        b[r][c] == CellState::Alive,
        neighbor_count(b, r, c) < 2,
    ensures
        step(b)[r][c] == CellState::Dead,
{
    lemma_step_cells(b);
}

/// Survival: a live cell with exactly two live neighbours is alive in the
/// next generation, and so is one with exactly three.
pub proof fn lemma_cell_survives(b: Seq<Seq<CellState>>, r: int, c: int)
    requires
        well_shaped(b),
        0 <= r < rows(b),
        0 <= c < cols(b),
        b[r][c] == CellState::Alive,
        neighbor_count(b, r, c) == 2 || neighbor_count(b, r, c) == 3,
    ensures
        step(b)[r][c] == CellState::Alive,
{
    lemma_step_cells(b);
}

/// Overcrowding: a live cell with more than three live neighbours, four for
/// one, is dead in the next generation.
pub proof fn lemma_crowded_cell_dies(b: Seq<Seq<CellState>>, r: int, c: int)
    requires
        well_shaped(b),
        0 <= r < rows(b),
        0 <= c < cols(b),
        b[r][c] == CellState::Alive,
        neighbor_count(b, r, c) > 3,
    ensures
        step(b)[r][c] == CellState::Dead,
{
    lemma_step_cells(b);
}

/// Birth: a dead cell with exactly three live neighbours is alive in the
/// next generation.
pub proof fn lemma_cell_is_born(b: Seq<Seq<CellState>>, r: int, c: int)
    requires
        well_shaped(b),
        0 <= r < rows(b),
        0 <= c < cols(b),
        b[r][c] == CellState::Dead,
        neighbor_count(b, r, c) == 3,
    ensures
        step(b)[r][c] == CellState::Alive,
{
    lemma_step_cells(b);
}

} // verus!
