//! The board: two planes of vitalities, one of which is the current
//! generation.

use vstd::prelude::*;
use crate::error::BoardError;
use crate::rule::{next_vitality, next_vitality_of, V_MAX};
use crate::symbol::{push_line, rendering, symbol_for, symbol_of, symbols_of, text_of, Symbol};
use crate::plane::{
    all_alive, all_dead, all_fit, first_misfit, fits, framed, inside, listed, live,
    live_neighbors, only_births, seeded, shaped, step, with_live,
};
use crate::random::{draw, range_between, range_bounds};

verus! {

/// What a plane of vectors stands for.
spec fn plane_of(v: Vec<Vec<u8>>) -> Seq<Seq<u8>> {
    Seq::new(v@.len(), |r: int| v@[r]@)
}

/// Of a hundred cells, the number that random seeding brings to life.
pub const LIVE_PERCENT: u32 = 15;

/// The bound below which the draws of random seeding stay.
pub const DRAW_BOUND: u32 = 100;

/// A grid of `rows` by `cols` cells and its current generation.
pub struct Board {
    rows: usize,
    cols: usize,
    /// Whether `buffer_a` is the foreground. While a step is computed the
    /// foreground plane is only read and the background plane only written;
    /// then the two change roles.
    switch: bool,
    /// A cell is alive if its vitality is `V_MAX`. A cell that died keeps
    /// what is left of its vitality and loses one unit with each step, which
    /// gives the afterglow. Both planes have a ring of cells around the grid
    /// that are always dead.
    buffer_a: Vec<Vec<u8>>,
    buffer_b: Vec<Vec<u8>>,
    fadeout: bool,
}

/// Every draw from `range` is below `DRAW_BOUND`.
spec fn draws_below_bound(range: rand::distributions::Range<u32>) -> bool {
    range_bounds(range) == (0u32, DRAW_BOUND)
}

/// A plane for `rows` by `cols` cells in which every cell is dead.
fn dead_plane(rows: usize, cols: usize) -> (plane: Vec<Vec<u8>>)
    requires
        rows + 2 <= usize::MAX,
        cols + 2 <= usize::MAX,
    ensures
        shaped(plane_of(plane), rows as nat, cols as nat),
        all_dead(plane_of(plane)),
{
    let plane = vec![vec![0u8; cols + 2]; rows + 2];
    plane
}

/// The number of living cells among the first `k` cells, row by row, of the
/// block of three by three cells around `(r, c)`.
spec fn block_live(p: Seq<Seq<u8>>, r: int, c: int, k: int) -> int {
    (if k > 0 { live(p, r - 1, c - 1) } else { 0 })
        + (if k > 1 { live(p, r - 1, c) } else { 0 })
        + (if k > 2 { live(p, r - 1, c + 1) } else { 0 })
        + (if k > 3 { live(p, r, c - 1) } else { 0 })
        + (if k > 4 { live(p, r, c) } else { 0 })
        + (if k > 5 { live(p, r, c + 1) } else { 0 })
        + (if k > 6 { live(p, r + 1, c - 1) } else { 0 })
        + (if k > 7 { live(p, r + 1, c) } else { 0 })
        + (if k > 8 { live(p, r + 1, c + 1) } else { 0 })
}

/// Counts the living neighbours of the cell at `(row, col)`.
///
/// The count starts at -1 for a living cell, so that the scan of the whole
/// block, in which the cell counts itself, ends at the number of its
/// neighbours.
fn live_neighbors_of(plane: &Vec<Vec<u8>>, row: usize, col: usize) -> (count: u8)
    requires
        1 <= row,
        row + 1 < plane.len(),
        1 <= col,
        forall|r: int| row - 1 <= r <= row + 1 ==> col + 1 < (#[trigger] plane@[r]).len(),
    ensures
        count == live_neighbors(plane_of(*plane), row as int, col as int),
        count <= 8,
{
    let ghost p = plane_of(*plane);
    let alive = plane[row][col] == V_MAX;
    let mut counter: i8 = if alive { -1 } else { 0 };
    let ghost start = counter as int;
    for row_d in 0..3usize
        invariant
            1 <= row,
            row + 1 < plane.len(),
            1 <= col,
            forall|r: int| row - 1 <= r <= row + 1 ==> col + 1 < (#[trigger] plane@[r]).len(),
            p == plane_of(*plane),
            start == -live(p, row as int, col as int),
            counter == start + block_live(p, row as int, col as int, 3 * row_d),
    {
        for col_d in 0..3usize
            invariant
                1 <= row,
                row + 1 < plane.len(),
                1 <= col,
                forall|r: int| row - 1 <= r <= row + 1 ==> col + 1 < (#[trigger] plane@[r]).len(),
                p == plane_of(*plane),
                start == -live(p, row as int, col as int),
                row_d < 3,
                counter == start + block_live(p, row as int, col as int, 3 * row_d + col_d),
        {
            assert(plane@[row + row_d - 1].len() > col + 1);
            if plane[row + row_d - 1][col + col_d - 1] == V_MAX {
                counter += 1;
            }
        }
    }
    counter as u8
}

/// Writes the generation that follows `fg` to `bg`.
fn advance_plane(fg: &Vec<Vec<u8>>, bg: &mut Vec<Vec<u8>>, rows: usize, cols: usize)
    requires
        framed(plane_of(*fg), rows as nat, cols as nat),
        framed(plane_of(*old(bg)), rows as nat, cols as nat),
    ensures
        plane_of(*final(bg)) == step(plane_of(*fg), rows as nat, cols as nat),
{
    let ghost p = plane_of(*fg);
    assert(fg.len() == rows + 2);
    assert(fg@[0].len() == p[0].len());
    for row in 1..rows + 1
        invariant
            cols + 2 <= usize::MAX,
            p == plane_of(*fg),
            framed(p, rows as nat, cols as nat),
            framed(plane_of(*bg), rows as nat, cols as nat),
            forall|r: int, c: int|
                1 <= r < row && 1 <= c <= cols ==> #[trigger] plane_of(*bg)[r][c] == next_vitality(
                    p[r][c],
                    live_neighbors(p, r, c),
                ),
    {
        for col in 1..cols + 1
            invariant
                cols + 2 <= usize::MAX,
                p == plane_of(*fg),
                1 <= row <= rows,
                framed(p, rows as nat, cols as nat),
                framed(plane_of(*bg), rows as nat, cols as nat),
                forall|r: int, c: int|
                    1 <= r < row && 1 <= c <= cols ==> #[trigger] plane_of(*bg)[r][c]
                        == next_vitality(p[r][c], live_neighbors(p, r, c)),
                forall|c: int|
                    1 <= c < col ==> #[trigger] plane_of(*bg)[row as int][c] == next_vitality(
                        p[row as int][c],
                        live_neighbors(p, row as int, c),
                    ),
        {
            let ghost before = plane_of(*bg);
            assert(forall|r: int| row - 1 <= r <= row + 1 ==> (#[trigger] fg@[r]).len() == p[r].len());
            assert(before[row as int].len() == cols + 2);
            let neighbors = live_neighbors_of(fg, row, col);
            let next = next_vitality_of(fg[row][col], neighbors);
            bg[row][col] = next;
            assert(plane_of(*bg) =~~= before.update(row as int, before[row as int].update(col as int, next)));
        }
    }
    assert(plane_of(*bg) =~~= step(p, rows as nat, cols as nat));
}

impl Board {
    /// The number of rows of the grid.
    pub closed spec fn rows(&self) -> nat {
        self.rows as nat
    }

    /// The number of columns of the grid.
    pub closed spec fn cols(&self) -> nat {
        self.cols as nat
    }

    /// Whether cells that died recently are rendered with an afterglow.
    pub closed spec fn fadeout(&self) -> bool {
        self.fadeout
    }

    /// Whether the first of the two planes holds the current generation.
    pub closed spec fn first_is_foreground(&self) -> bool {
        self.switch
    }

    /// The plane that holds the current generation.
    pub closed spec fn foreground(&self) -> Seq<Seq<u8>> {
        if self.switch {
            plane_of(self.buffer_a)
        } else {
            plane_of(self.buffer_b)
        }
    }

    /// The plane that the next generation will be written to.
    pub closed spec fn background(&self) -> Seq<Seq<u8>> {
        if self.switch {
            plane_of(self.buffer_b)
        } else {
            plane_of(self.buffer_a)
        }
    }

    /// Both planes have the board's shape and a dead border.
    pub open spec fn wf(&self) -> bool {
        &&& framed(self.foreground(), self.rows(), self.cols())
        &&& framed(self.background(), self.rows(), self.cols())
    }

    /// The board differs from `before` in its foreground plane at most.
    pub open spec fn keeps_all_but_foreground(&self, before: Board) -> bool {
        &&& self.rows() == before.rows()
        &&& self.cols() == before.cols()
        &&& self.fadeout() == before.fadeout()
        &&& self.first_is_foreground() == before.first_is_foreground()
        &&& self.background() == before.background()
    }

    /// The board is `before` after an attempt to bring `cells` to life that
    /// ended in `done`: all of them live if all lie on the grid; else nothing
    /// changed and the error names the first that does not.
    pub open spec fn seeded_from(
        &self,
        before: Board,
        cells: Seq<(usize, usize)>,
        done: Result<(), BoardError>,
    ) -> bool {
        &&& self.keeps_all_but_foreground(before)
        &&& done is Ok <==> all_fit(cells, before.rows(), before.cols())
        &&& done is Ok ==> self.foreground() == seeded(before.foreground(), cells)
        &&& done matches Err(e) ==> {
            &&& self.foreground() == before.foreground()
            &&& exists|k: int|
                #[trigger] first_misfit(cells, before.rows(), before.cols(), k) && e == (
                BoardError::OutOfBounds { row: cells[k].0, col: cells[k].1 })
        }
    }

    /// Makes a board of `rows` by `cols` cells, all of them dead, whose
    /// first plane is the foreground.
    pub fn new(rows: usize, cols: usize, fadeout: bool) -> (made: Result<Board, BoardError>)
        requires
            rows + 2 <= usize::MAX,
            cols + 2 <= usize::MAX,
        ensures
            made is Err <==> rows == 0 || cols == 0,
            made matches Err(e) ==> e == BoardError::InvalidDimensions,
            made matches Ok(board) ==> {
                &&& board.wf()
                &&& board.rows() == rows
                &&& board.cols() == cols
                &&& board.fadeout() == fadeout
                &&& board.first_is_foreground()
                &&& all_dead(board.foreground())
                &&& all_dead(board.background())
            },
    {
        if rows == 0 || cols == 0 {
            return Err(BoardError::InvalidDimensions);
        }
        Ok(
            Board {
                rows: rows,
                cols: cols,
                switch: true,
                buffer_a: dead_plane(rows, cols),
                buffer_b: dead_plane(rows, cols),
                fadeout: fadeout,
            },
        )
    }

    /// Replaces the current generation by the next one.
    ///
    /// The next generation is written to the background plane, from the
    /// foreground plane alone; then the two planes change roles.
    pub fn next(&mut self)
        requires
            old(self).wf(),
        ensures
            final(self).wf(),
            final(self).foreground() == step(
                old(self).foreground(),
                old(self).rows(),
                old(self).cols(),
            ),
            final(self).background() == old(self).foreground(),
            final(self).first_is_foreground() == !old(self).first_is_foreground(),
            final(self).rows() == old(self).rows(),
            final(self).cols() == old(self).cols(),
            final(self).fadeout() == old(self).fadeout(),
    {
        if self.switch {
            advance_plane(&self.buffer_a, &mut self.buffer_b, self.rows, self.cols);
        } else {
            advance_plane(&self.buffer_b, &mut self.buffer_a, self.rows, self.cols);
        }
        self.switch = !self.switch;
    }

    /// Brings about `LIVE_PERCENT` of a hundred cells to life, chosen at
    /// random, and leaves the others as they are.
    pub fn population_from_rand(&mut self)
        requires
            old(self).wf(),
        ensures
            final(self).wf(),
            final(self).keeps_all_but_foreground(*old(self)),
            only_births(
                old(self).foreground(),
                final(self).foreground(),
                old(self).rows(),
                old(self).cols(),
            ),
    {
        self.population_from_chance(LIVE_PERCENT)
    }

    /// Brings each cell to life with a chance of `live_percent` in a
    /// hundred, and leaves the others as they are.
    ///
    /// For each cell, row by row, a number below `DRAW_BOUND` is drawn and
    /// handed to `seed_from_draw`. So no cell comes to life with a chance of
    /// 0, and every cell does with a chance of 100 or more.
    pub fn population_from_chance(&mut self, live_percent: u32)
        requires
            old(self).wf(),
        ensures
            final(self).wf(),
            final(self).keeps_all_but_foreground(*old(self)),
            only_births(
                old(self).foreground(),
                final(self).foreground(),
                old(self).rows(),
                old(self).cols(),
            ),
            live_percent == 0 ==> final(self).foreground() == old(self).foreground(),
            live_percent >= DRAW_BOUND ==> all_alive(
                final(self).foreground(),
                old(self).rows(),
                old(self).cols(),
            ),
    {
        let ghost before = self.foreground();
        let rows = self.rows;
        let cols = self.cols;
        let mut rng = rand::thread_rng();
        let between = range_between(0, DRAW_BOUND);
        for row in 0..rows
            invariant
                self.wf(),
                self.keeps_all_but_foreground(*old(self)),
                rows == self.rows(),
                cols == self.cols(),
                before == old(self).foreground(),
                draws_below_bound(between),
                only_births(before, self.foreground(), rows as nat, cols as nat),
                live_percent == 0 ==> self.foreground() == before,
                live_percent >= DRAW_BOUND ==> forall|r: int, c: int|
                    1 <= r <= row && 1 <= c <= cols ==> #[trigger] self.foreground()[r][c]
                        == V_MAX,
        {
            for col in 0..cols
                invariant
                    self.wf(),
                    self.keeps_all_but_foreground(*old(self)),
                    rows == self.rows(),
                    cols == self.cols(),
                    before == old(self).foreground(),
                    draws_below_bound(between),
                    row < rows,
                    only_births(before, self.foreground(), rows as nat, cols as nat),
                    live_percent == 0 ==> self.foreground() == before,
                    live_percent >= DRAW_BOUND ==> forall|r: int, c: int|
                        1 <= r <= row && 1 <= c <= cols ==> #[trigger] self.foreground()[r][c]
                            == V_MAX,
                    live_percent >= DRAW_BOUND ==> forall|c: int|
                        1 <= c <= col ==> #[trigger] self.foreground()[row + 1][c] == V_MAX,
            {
                let ghost sooner = self.foreground();
                let drawn = draw(&between, &mut rng);
                self.seed_from_draw(row, col, drawn, live_percent);
                assert(sooner[row + 1].len() == cols + 2);
            }
        }
    }

    /// Brings the cell in row `row` and column `col` of the grid, both
    /// counted from 0, to life if `drawn` is below `live_percent`, and
    /// leaves the board as it is otherwise.
    pub fn seed_from_draw(&mut self, row: usize, col: usize, drawn: u32, live_percent: u32)
        requires
            old(self).wf(),
            row < old(self).rows(),
            col < old(self).cols(),
        ensures
            final(self).wf(),
            final(self).keeps_all_but_foreground(*old(self)),
            final(self).foreground() == if drawn < live_percent {
                with_live(old(self).foreground(), row + 1, col + 1)
            } else {
                old(self).foreground()
            },
    {
        if drawn < live_percent {
            self.set_alive(row + 1, col + 1);
        }
    }

    /// Brings the cells that `data` names, by row and column counted from 0,
    /// to life in the current generation.
    ///
    /// If a cell of `data` lies outside the grid, the board is left as it
    /// was and the error names the first such cell.
    pub fn population_from_vec(&mut self, data: Vec<(usize, usize)>) -> (done: Result<
        (),
        BoardError,
    >)
        requires
            old(self).wf(),
        ensures
            final(self).wf(),
            final(self).seeded_from(*old(self), data@, done),
    {
        let ghost before = self.foreground();
        let mut i: usize = 0;
        while i < data.len()
            invariant
                i <= data.len(),
                self.wf(),
                *self == *old(self),
                forall|j: int| 0 <= j < i ==> fits(self.rows(), self.cols(), #[trigger] data@[j]),
            decreases data.len() - i,
        {
            let (row, col) = data[i];
            if !(row < self.rows && col < self.cols) {
                assert(first_misfit(data@, self.rows(), self.cols(), i as int));
                return Err(BoardError::OutOfBounds { row: row, col: col });
            }
            i += 1;
        }
        assert(before =~~= seeded(before, data@.take(0)));
        let mut i: usize = 0;
        while i < data.len()
            invariant
                i <= data.len(),
                self.wf(),
                self.keeps_all_but_foreground(*old(self)),
                all_fit(data@, self.rows(), self.cols()),
                before == old(self).foreground(),
                self.foreground() == seeded(before, data@.take(i as int)),
            decreases data.len() - i,
        {
            let (row, col) = data[i];
            let ghost so_far = self.foreground();
            assert(fits(self.rows(), self.cols(), data@[i as int]));
            self.set_alive(row + 1, col + 1);
            proof {
                let sooner = data@.take(i as int);
                let later = data@.take(i + 1);
                assert(later[i as int] == data@[i as int]);
                assert forall|r: int, c: int| listed(later, r, c) <==> listed(sooner, r, c) || (r
                    == row + 1 && c == col + 1) by {
                    if listed(sooner, r, c) {
                        let k = choose|k: int|
                            0 <= k < sooner.len() && (#[trigger] sooner[k]).0 + 1 == r
                                && sooner[k].1 + 1 == c;
                        assert(later[k] == sooner[k]);
                    }
                    if listed(later, r, c) {
                        let k = choose|k: int|
                            0 <= k < later.len() && (#[trigger] later[k]).0 + 1 == r
                                && later[k].1 + 1 == c;
                        if k < i {
                            assert(sooner[k] == later[k]);
                        }
                    }
                }
                assert(self.foreground() =~~= seeded(before, later));
            }
            i += 1;
        }
        assert(data@.take(data@.len() as int) =~= data@);
        Ok(())
    }

    /// The vitality of the cell in row `row` and column `col` of the grid,
    /// both counted from 0, if there is such a cell.
    pub fn vitality(&self, row: usize, col: usize) -> (found: Option<u8>)
        requires
            self.wf(),
        ensures
            found is Some <==> row < self.rows() && col < self.cols(),
            found matches Some(v) ==> v == self.foreground()[row + 1][col + 1],
    {
        if row < self.rows && col < self.cols {
            assert(self.foreground()[row + 1].len() == self.cols + 2);
            if self.switch {
                Some(self.buffer_a[row + 1][col + 1])
            } else {
                Some(self.buffer_b[row + 1][col + 1])
            }
        } else {
            None
        }
    }

    /// The symbols of the current generation: one row of symbols for each
    /// row of the grid, one symbol for each of its cells, none for the border.
    pub fn render(&self) -> (symbols: Vec<Vec<Symbol>>)
        requires
            self.wf(),
        ensures
            symbols_of(symbols) == rendering(
                self.foreground(),
                self.rows(),
                self.cols(),
                self.fadeout(),
            ),
    {
        let ghost p = self.foreground();
        let mut symbols: Vec<Vec<Symbol>> = Vec::new();
        for row in 0..self.rows
            invariant
                self.wf(),
                p == self.foreground(),
                symbols@.len() == row,
                forall|r: int|
                    0 <= r < row ==> (#[trigger] symbols@[r])@ == Seq::new(
                        self.cols(),
                        |c: int| symbol_of(p[r + 1][c + 1], self.fadeout()),
                    ),
        {
            let mut line: Vec<Symbol> = Vec::new();
            for col in 0..self.cols
                invariant
                    self.wf(),
                    p == self.foreground(),
                    row < self.rows(),
                    line@.len() == col,
                    forall|c: int|
                        0 <= c < col ==> #[trigger] line@[c] == symbol_of(
                            p[row + 1][c + 1],
                            self.fadeout(),
                        ),
            {
                let v = match self.vitality(row, col) {
                    Some(v) => v,
                    None => 0,
                };
                line.push(symbol_for(v, self.fadeout));
            }
            assert(line@ =~= Seq::new(
                self.cols(),
                |c: int| symbol_of(p[row + 1][c + 1], self.fadeout()),
            ));
            symbols.push(line);
        }
        assert(symbols_of(symbols) =~~= rendering(p, self.rows(), self.cols(), self.fadeout()));
        symbols
    }

    /// The current generation as text: one line for each row of the grid,
    /// one character for each of its cells, each line closed by a line feed.
    pub fn to_text(&self) -> (text: String)
        requires
            self.wf(),
        ensures
            text@ == text_of(
                rendering(self.foreground(), self.rows(), self.cols(), self.fadeout()),
                self.rows(),
            ),
    {
        let symbols = self.render();
        assert(symbols_of(symbols).len() == self.rows());
        let mut text = String::new();
        for row in 0..symbols.len()
            invariant
                symbols@.len() == self.rows(),
                text@ == text_of(symbols_of(symbols), row as nat),
        {
            push_line(&mut text, &symbols[row]);
        }
        text
    }

    /// Brings the cell at `(r, c)` of the foreground plane to life.
    fn set_alive(&mut self, r: usize, c: usize)
        requires
            old(self).wf(),
            inside(old(self).rows(), old(self).cols(), r as int, c as int),
        ensures
            final(self).wf(),
            final(self).foreground() == with_live(old(self).foreground(), r as int, c as int),
            final(self).keeps_all_but_foreground(*old(self)),
    {
        let ghost before = self.foreground();
        assert(before[r as int].len() == self.cols + 2);
        if self.switch {
            self.buffer_a[r][c] = V_MAX;
        } else {
            self.buffer_b[r][c] = V_MAX;
        }
        assert(self.foreground() =~~= with_live(before, r as int, c as int));
    }
}

} // verus!
