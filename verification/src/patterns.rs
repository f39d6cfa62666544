//! The populations that a board can start from.

use vstd::prelude::*;
use crate::board::Board;
use crate::error::BoardError;
use crate::plane::{all_fit, only_births};

verus! {

/// The cells of a glider.
pub open spec fn glider_cells() -> Seq<(usize, usize)> {
    seq![(10, 10), (11, 11), (12, 9), (12, 10), (12, 11)]
}

/// The cells of a Gosper glider gun.
pub open spec fn gosper_glider_gun_cells() -> Seq<(usize, usize)> {
    seq![
        (2, 26), (3, 24), (3, 26), (4, 14), (4, 15), (4, 22),
        (4, 23), (4, 36), (4, 37), (5, 13), (5, 17), (5, 22),
        (5, 23), (5, 36), (5, 37), (6, 2), (6, 3), (6, 12),
        (6, 18), (6, 22), (6, 23), (7, 2), (7, 3), (7, 12),
        (7, 16), (7, 18), (7, 19), (7, 24), (8, 12), (8, 18),
        (7, 26), (9, 13), (9, 17), (8, 26), (10, 14), (10, 15),
    ]
}

/// A glider fits on a grid of at least 13 rows and 12 columns, and on no
/// smaller one.
pub proof fn glider_fits(rows: nat, cols: nat)
    ensures
        all_fit(glider_cells(), rows, cols) <==> rows >= 13 && cols >= 12,
{
    let cells = glider_cells();
    if all_fit(cells, rows, cols) {
        assert(cells[4] == (12usize, 11usize));
    }
}

/// A Gosper glider gun fits on a grid of at least 11 rows and 38 columns,
/// and on no smaller one.
pub proof fn gosper_glider_gun_fits(rows: nat, cols: nat)
    ensures
        all_fit(gosper_glider_gun_cells(), rows, cols) <==> rows >= 11 && cols >= 38,
{
    let cells = gosper_glider_gun_cells();
    if all_fit(cells, rows, cols) {
        assert(cells[8] == (4usize, 37usize));
        assert(cells[34] == (10usize, 14usize));
    }
}

/// The cells of a glider, by row and column.
pub fn glider() -> (cells: Vec<(usize, usize)>)
    ensures
        cells@ == glider_cells(),
{
    let cells: Vec<(usize, usize)> = vec![(10, 10), (11, 11), (12, 9), (12, 10), (12, 11)];
    assert(cells@ =~= glider_cells());
    cells
}

/// The cells of a Gosper glider gun, by row and column.
pub fn gosper_glider_gun() -> (cells: Vec<(usize, usize)>)
    ensures
        cells@ == gosper_glider_gun_cells(),
{
    let cells: Vec<(usize, usize)> = vec![
        (2, 26), (3, 24), (3, 26), (4, 14), (4, 15), (4, 22),
        (4, 23), (4, 36), (4, 37), (5, 13), (5, 17), (5, 22),
        (5, 23), (5, 36), (5, 37), (6, 2), (6, 3), (6, 12),
        (6, 18), (6, 22), (6, 23), (7, 2), (7, 3), (7, 12),
        (7, 16), (7, 18), (7, 19), (7, 24), (8, 12), (8, 18),
        (7, 26), (9, 13), (9, 17), (8, 26), (10, 14), (10, 15),
    ];
    assert(cells@ =~= gosper_glider_gun_cells());
    cells
}

/// Populates the board at random.
pub fn example1(board: &mut Board) -> (done: Result<(), BoardError>)
    requires
        old(board).wf(),
    ensures
        final(board).wf(),
        final(board).keeps_all_but_foreground(*old(board)),
        done is Ok,
        only_births(
            old(board).foreground(),
            final(board).foreground(),
            old(board).rows(),
            old(board).cols(),
        ),
{
    board.population_from_rand();
    Ok(())
}

/// Populates the board with a glider.
pub fn example2(board: &mut Board) -> (done: Result<(), BoardError>)
    requires
        old(board).wf(),
    ensures
        final(board).wf(),
        final(board).seeded_from(*old(board), glider_cells(), done),
        done is Ok <==> old(board).rows() >= 13 && old(board).cols() >= 12,
{
    proof {
        glider_fits(board.rows(), board.cols());
    }
    board.population_from_vec(glider())
}

/// Populates the board with a Gosper glider gun.
pub fn example3(board: &mut Board) -> (done: Result<(), BoardError>)
    requires
        old(board).wf(),
    ensures
        final(board).wf(),
        final(board).seeded_from(*old(board), gosper_glider_gun_cells(), done),
        done is Ok <==> old(board).rows() >= 11 && old(board).cols() >= 38,
{
    proof {
        gosper_glider_gun_fits(board.rows(), board.cols());
    }
    board.population_from_vec(gosper_glider_gun())
}

/// A way to populate a board.
pub enum Population {
    /// Cells chosen at random.
    Random,
    /// A glider.
    Glider,
    /// A Gosper glider gun.
    GosperGun,
    /// The cells listed, by row and column counted from 0.
    Explicit(Vec<(usize, usize)>),
}

impl Population {
    /// The population that the commands ask for: the first of `random`,
    /// `glider` and `gosper` that is set, if any is.
    pub fn from_commands(random: bool, glider: bool, gosper: bool) -> (chosen: Option<Population>)
        ensures
            chosen == if random {
                Some(Population::Random)
            } else if glider {
                Some(Population::Glider)
            } else if gosper {
                Some(Population::GosperGun)
            } else {
                None
            },
    {
        if random {
            Some(Population::Random)
        } else if glider {
            Some(Population::Glider)
        } else if gosper {
            Some(Population::GosperGun)
        } else {
            None
        }
    }

    /// The cells that the population names, where it names any.
    pub open spec fn cells(self) -> Seq<(usize, usize)> {
        match self {
            Population::Random => Seq::empty(),
            Population::Glider => glider_cells(),
            Population::GosperGun => gosper_glider_gun_cells(),
            Population::Explicit(cells) => cells@,
        }
    }
}

/// Populates the board as `population` says.
///
/// A random population never fails. Each of the others succeeds if all of
/// its cells lie on the grid, and else leaves the board as it was.
pub fn populate(board: &mut Board, population: Population) -> (done: Result<(), BoardError>)
    requires
        old(board).wf(),
    ensures
        final(board).wf(),
        final(board).keeps_all_but_foreground(*old(board)),
        population is Random ==> done is Ok && only_births(
            old(board).foreground(),
            final(board).foreground(),
            old(board).rows(),
            old(board).cols(),
        ),
        !(population is Random) ==> final(board).seeded_from(
            *old(board),
            population.cells(),
            done,
        ),
{
    match population {
        Population::Random => example1(board),
        Population::Glider => example2(board),
        Population::GosperGun => example3(board),
        Population::Explicit(cells) => board.population_from_vec(cells),
    }
}

} // verus!
