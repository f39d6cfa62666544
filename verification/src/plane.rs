//! The mathematical model of one generation: a plane of vitalities with a
//! ring of border cells around the cells of the grid proper.
//!
//! A grid of `rows` by `cols` cells is a plane of `rows + 2` by `cols + 2`
//! vitalities. The cell that callers address as `(row, col)` lies at
//! `(row + 1, col + 1)` of the plane; the cells in row `0`, row `rows + 1`,
//! column `0` and column `cols + 1` form the border.

use vstd::prelude::*;
use crate::rule::{next_vitality, V_MAX};

verus! {

/// `p` has `rows + 2` rows of `cols + 2` cells each.
pub open spec fn shaped(p: Seq<Seq<u8>>, rows: nat, cols: nat) -> bool {
    &&& p.len() == rows + 2
    &&& forall|r: int| 0 <= r < p.len() ==> (#[trigger] p[r]).len() == cols + 2
}

/// `(r, c)` is a position of a plane for a grid of `rows` by `cols` cells.
pub open spec fn on_plane(rows: nat, cols: nat, r: int, c: int) -> bool {
    0 <= r <= rows + 1 && 0 <= c <= cols + 1
}

/// `(r, c)` is a cell of the grid proper, not of the border.
pub open spec fn inside(rows: nat, cols: nat, r: int, c: int) -> bool {
    1 <= r <= rows && 1 <= c <= cols
}

/// `(r, c)` is a border cell.
pub open spec fn on_border(rows: nat, cols: nat, r: int, c: int) -> bool {
    on_plane(rows, cols, r, c) && !inside(rows, cols, r, c)
}

/// Every border cell of `p` has vitality 0.
pub open spec fn border_dead(p: Seq<Seq<u8>>, rows: nat, cols: nat) -> bool {
    forall|r: int, c: int| on_border(rows, cols, r, c) ==> #[trigger] p[r][c] == 0
}

/// `p` is a plane for a grid of `rows` by `cols` cells whose border is dead.
pub open spec fn framed(p: Seq<Seq<u8>>, rows: nat, cols: nat) -> bool {
    shaped(p, rows, cols) && border_dead(p, rows, cols)
}

/// Every cell of `p`, the border included, has vitality 0.
pub open spec fn all_dead(p: Seq<Seq<u8>>) -> bool {
    forall|r: int, c: int| 0 <= r < p.len() && 0 <= c < p[r].len() ==> #[trigger] p[r][c] == 0
}

/// The cell at `(r, c)` is alive. Positions off the plane hold no living cell.
pub open spec fn alive_at(p: Seq<Seq<u8>>, r: int, c: int) -> bool {
    0 <= r < p.len() && 0 <= c < p[r].len() && p[r][c] == V_MAX
}

/// 1 if the cell at `(r, c)` is alive, else 0.
pub open spec fn live(p: Seq<Seq<u8>>, r: int, c: int) -> int {
    if alive_at(p, r, c) {
        1
    } else {
        0
    }
}

/// The number of living cells among the eight neighbours of `(r, c)`.
pub open spec fn live_neighbors(p: Seq<Seq<u8>>, r: int, c: int) -> int {
    live(p, r - 1, c - 1) + live(p, r - 1, c) + live(p, r - 1, c + 1)
        + live(p, r, c - 1) + live(p, r, c + 1)
        + live(p, r + 1, c - 1) + live(p, r + 1, c) + live(p, r + 1, c + 1)
}

/// The next generation of `p`: every cell of the grid proper follows the
/// update rule; a border cell keeps its vitality.
pub open spec fn step(p: Seq<Seq<u8>>, rows: nat, cols: nat) -> Seq<Seq<u8>> {
    Seq::new(
        rows + 2,
        |r: int|
            Seq::new(
                cols + 2,
                |c: int|
                    if inside(rows, cols, r, c) {
                        next_vitality(p[r][c], live_neighbors(p, r, c))
                    } else {
                        p[r][c]
                    },
            ),
    )
}

/// The generation that follows `p` after `n` steps.
pub open spec fn steps(p: Seq<Seq<u8>>, rows: nat, cols: nat, n: nat) -> Seq<Seq<u8>>
    decreases n,
{
    if n == 0 {
        p
    } else {
        step(steps(p, rows, cols, (n - 1) as nat), rows, cols)
    }
}

/// `p` with the cell at `(r, c)` brought to life.
pub open spec fn with_live(p: Seq<Seq<u8>>, r: int, c: int) -> Seq<Seq<u8>> {
    p.update(r, p[r].update(c, V_MAX))
}

/// From `before` to `after` no cell changed but cells of the grid proper
/// that came to life.
pub open spec fn only_births(
    before: Seq<Seq<u8>>,
    after: Seq<Seq<u8>>,
    rows: nat,
    cols: nat,
) -> bool {
    forall|r: int, c: int|
        on_plane(rows, cols, r, c) ==> #[trigger] after[r][c] == before[r][c] || (inside(
            rows,
            cols,
            r,
            c,
        ) && after[r][c] == V_MAX)
}

/// Every cell of the grid proper is alive.
pub open spec fn all_alive(p: Seq<Seq<u8>>, rows: nat, cols: nat) -> bool {
    forall|r: int, c: int| inside(rows, cols, r, c) ==> #[trigger] p[r][c] == V_MAX
}

/// The cell that callers address as `cell`, by row and column counted from
/// 0, is a cell of a grid of `rows` by `cols` cells.
pub open spec fn fits(rows: nat, cols: nat, cell: (usize, usize)) -> bool {
    cell.0 < rows && cell.1 < cols
}

/// Every cell of `cells` is a cell of the grid.
pub open spec fn all_fit(cells: Seq<(usize, usize)>, rows: nat, cols: nat) -> bool {
    forall|i: int| 0 <= i < cells.len() ==> fits(rows, cols, #[trigger] cells[i])
}

/// `cells[k]` is the first cell of `cells` that is no cell of the grid.
pub open spec fn first_misfit(cells: Seq<(usize, usize)>, rows: nat, cols: nat, k: int) -> bool {
    &&& 0 <= k < cells.len()
    &&& !fits(rows, cols, cells[k])
    &&& forall|i: int| 0 <= i < k ==> fits(rows, cols, #[trigger] cells[i])
}

/// `cells` names the cell that lies at `(r, c)` of the plane.
pub open spec fn listed(cells: Seq<(usize, usize)>, r: int, c: int) -> bool {
    exists|i: int| 0 <= i < cells.len() && (#[trigger] cells[i]).0 + 1 == r && cells[i].1 + 1 == c
}

/// `p` with every cell that `cells` names brought to life.
pub open spec fn seeded(p: Seq<Seq<u8>>, cells: Seq<(usize, usize)>) -> Seq<Seq<u8>> {
    Seq::new(
        p.len(),
        |r: int|
            Seq::new(
                p[r].len(),
                |c: int|
                    if listed(cells, r, c) {
                        V_MAX
                    } else {
                        p[r][c]
                    },
            ),
    )
}

} // verus!
