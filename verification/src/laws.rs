//! What holds of every board, proved from the definitions that the
//! contracts of the library use.

use vstd::prelude::*;
use crate::board::Board;
use crate::plane::{
    alive_at, all_dead, framed, inside, live_neighbors, shaped, step, steps,
};
use crate::rule::V_MAX;
use crate::symbol::{rendering, symbols_of, Symbol};

verus! {

/// A plane in which every cell is dead renders as a grid of blanks, with or
/// without afterglow. A new board has such a plane as its foreground.
pub proof fn dead_plane_renders_blank(p: Seq<Seq<u8>>, rows: nat, cols: nat, fadeout: bool)
    requires
        shaped(p, rows, cols),
        all_dead(p),
    ensures
        rendering(p, rows, cols, fadeout).len() == rows,
        forall|r: int|
            0 <= r < rows ==> (#[trigger] rendering(p, rows, cols, fadeout)[r]).len() == cols,
        forall|r: int, c: int|
            0 <= r < rows && 0 <= c < cols ==> #[trigger] rendering(p, rows, cols, fadeout)[r][c]
                == Symbol::Blank,
{
    assert forall|r: int, c: int| 0 <= r < rows && 0 <= c < cols implies #[trigger] rendering(
        p,
        rows,
        cols,
        fadeout,
    )[r][c] == Symbol::Blank by {
        assert(p[r + 1].len() == cols + 2);
        assert(p[r + 1][c + 1] == 0);
    }
}

/// A step keeps the shape of the plane and the vitality of every border
/// cell.
pub proof fn step_keeps_frame(p: Seq<Seq<u8>>, rows: nat, cols: nat)
    requires
        framed(p, rows, cols),
    ensures
        framed(step(p, rows, cols), rows, cols),
{
}

/// The border of a plane is dead before and after every step, however many
/// steps are taken.
pub proof fn border_stays_dead(p: Seq<Seq<u8>>, rows: nat, cols: nat, n: nat)
    requires
        framed(p, rows, cols),
    ensures
        framed(steps(p, rows, cols, n), rows, cols),
    decreases n,
{
    if n > 0 {
        border_stays_dead(p, rows, cols, (n - 1) as nat);
        step_keeps_frame(steps(p, rows, cols, (n - 1) as nat), rows, cols);
    }
}

/// After a step a cell of the grid proper is alive if it was alive and had
/// two or three living neighbours, or was not alive and had exactly three;
/// and only then.
pub proof fn step_follows_the_rule(p: Seq<Seq<u8>>, rows: nat, cols: nat, r: int, c: int)
    requires
        shaped(p, rows, cols),
        inside(rows, cols, r, c),
    ensures
        alive_at(step(p, rows, cols), r, c) <==> if alive_at(p, r, c) {
            live_neighbors(p, r, c) == 2 || live_neighbors(p, r, c) == 3
        } else {
            live_neighbors(p, r, c) == 3
        },
{
    assert(p[r].len() == cols + 2);
}

/// A step brings a cell of the grid proper to the vitality of a living
/// cell, or takes one unit of vitality from it where it has any.
pub proof fn step_revives_or_cools(p: Seq<Seq<u8>>, rows: nat, cols: nat, r: int, c: int)
    requires
        shaped(p, rows, cols),
        inside(rows, cols, r, c),
    ensures
        step(p, rows, cols)[r][c] == V_MAX || step(p, rows, cols)[r][c] == if p[r][c] > 0 {
            p[r][c] - 1
        } else {
            0
        },
{
}

/// A living cell without a living neighbour starts to cool: after one step
/// its vitality is one less than that of a living cell.
pub proof fn lonely_cell_cools(p: Seq<Seq<u8>>, rows: nat, cols: nat, r: int, c: int)
    requires
        shaped(p, rows, cols),
        inside(rows, cols, r, c),
        p[r][c] == V_MAX,
        live_neighbors(p, r, c) == 0,
    ensures
        step(p, rows, cols)[r][c] == V_MAX - 1,
{
}

/// A living cell that never has a living neighbour loses one unit of
/// vitality with each step until it has none: after `n` steps it has
/// `V_MAX - n`, and 0 from `V_MAX` steps on.
pub proof fn lonely_cell_fades(p: Seq<Seq<u8>>, rows: nat, cols: nat, r: int, c: int, n: nat)
    requires
        shaped(p, rows, cols),
        inside(rows, cols, r, c),
        p[r][c] == V_MAX,
        forall|k: nat| k < n ==> live_neighbors(#[trigger] steps(p, rows, cols, k), r, c) == 0,
    ensures
        steps(p, rows, cols, n)[r][c] == if n <= V_MAX {
            V_MAX - n
        } else {
            0
        },
    decreases n,
{
    if n > 0 {
        let m = (n - 1) as nat;
        lonely_cell_fades(p, rows, cols, r, c, m);
        assert(live_neighbors(steps(p, rows, cols, m), r, c) == 0);
    }
}

/// Rendering has no effect on the board and depends on nothing else: two
/// renderings of one board are equal.
pub proof fn render_repeats(board: Board, first: Vec<Vec<Symbol>>, second: Vec<Vec<Symbol>>)
    requires
        board.wf(),
        symbols_of(first) == rendering(
            board.foreground(),
            board.rows(),
            board.cols(),
            board.fadeout(),
        ),
        symbols_of(second) == rendering(
            board.foreground(),
            board.rows(),
            board.cols(),
            board.fadeout(),
        ),
    ensures
        symbols_of(first) == symbols_of(second),
{
}

} // verus!
