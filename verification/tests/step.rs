use game_of_life::board::Board;
use game_of_life::patterns::glider;
use game_of_life::rule::{next_vitality_of, V_MAX};

fn board_with(rows: usize, cols: usize, cells: &[(usize, usize)]) -> Board {
    let mut board = Board::new(rows, cols, true).unwrap();
    board.population_from_vec(cells.to_vec()).unwrap();
    board
}

fn vitalities(board: &Board, rows: usize, cols: usize) -> Vec<Vec<u8>> {
    (0..rows)
        .map(|row| (0..cols).map(|col| board.vitality(row, col).unwrap()).collect())
        .collect()
}

fn alive(board: &Board, rows: usize, cols: usize) -> Vec<(usize, usize)> {
    let mut cells = Vec::new();
    for row in 0..rows {
        for col in 0..cols {
            if board.vitality(row, col) == Some(V_MAX) {
                cells.push((row, col));
            }
        }
    }
    cells
}

#[test]
fn living_cell_is_the_greatest_vitality() {
    assert_eq!(V_MAX, 255);
}

#[test]
fn rule_for_a_living_cell() {
    for neighbors in 0..=8u8 {
        let expected = if neighbors == 2 || neighbors == 3 { 255 } else { 254 };
        assert_eq!(next_vitality_of(255, neighbors), expected);
    }
}

#[test]
fn rule_for_a_dead_cell() {
    for neighbors in 0..=8u8 {
        assert_eq!(next_vitality_of(0, neighbors), if neighbors == 3 { 255 } else { 0 });
        assert_eq!(next_vitality_of(1, neighbors), if neighbors == 3 { 255 } else { 0 });
        assert_eq!(next_vitality_of(254, neighbors), if neighbors == 3 { 255 } else { 253 });
        assert_eq!(next_vitality_of(100, neighbors), if neighbors == 3 { 255 } else { 99 });
    }
}

#[test]
fn single_cell_cools_by_one_with_each_step() {
    let mut board = board_with(5, 5, &[(2, 2)]);
    assert_eq!(board.vitality(2, 2), Some(255));
    board.next();
    assert_eq!(board.vitality(2, 2), Some(254));
    for step in 2..=255u32 {
        board.next();
        assert_eq!(board.vitality(2, 2), Some((255 - step) as u8));
    }
    assert_eq!(board.vitality(2, 2), Some(0));
    for _ in 0..4 {
        board.next();
        assert_eq!(vitalities(&board, 5, 5), vec![vec![0u8; 5]; 5]);
    }
}

#[test]
fn single_cell_leaves_its_neighbours_dead() {
    let mut board = board_with(5, 5, &[(2, 2)]);
    board.next();
    let mut expected = vec![vec![0u8; 5]; 5];
    expected[2][2] = 254;
    assert_eq!(vitalities(&board, 5, 5), expected);
}

#[test]
fn full_block_of_nine_keeps_its_corners() {
    let mut cells = Vec::new();
    for row in 1..4 {
        for col in 1..4 {
            cells.push((row, col));
        }
    }
    let mut board = board_with(5, 5, &cells);
    board.next();
    // corners: 3 neighbours; middles of the sides: 5; centre: 8
    for (row, col) in [(1, 1), (1, 3), (3, 1), (3, 3)] {
        assert_eq!(board.vitality(row, col), Some(255));
    }
    for (row, col) in [(1, 2), (2, 1), (2, 3), (3, 2)] {
        assert_eq!(board.vitality(row, col), Some(254));
    }
    assert_eq!(board.vitality(2, 2), Some(254));
    // outside the block: the middles of the sides have three neighbours
    for (row, col) in [(0, 2), (2, 0), (2, 4), (4, 2)] {
        assert_eq!(board.vitality(row, col), Some(255));
    }
    for (row, col) in [(0, 0), (0, 1), (0, 3), (0, 4), (4, 0), (4, 4), (1, 0), (3, 4)] {
        assert_eq!(board.vitality(row, col), Some(0));
    }
}

#[test]
fn block_of_nine_that_fills_the_grid() {
    let mut cells = Vec::new();
    for row in 0..3 {
        for col in 0..3 {
            cells.push((row, col));
        }
    }
    let mut board = board_with(3, 3, &cells);
    board.next();
    assert_eq!(
        vitalities(&board, 3, 3),
        vec![vec![255, 254, 255], vec![254, 254, 254], vec![255, 254, 255]]
    );
}

#[test]
fn glider_moves_one_cell_down_and_right_in_four_steps() {
    let mut board = Board::new(20, 20, true).unwrap();
    board.population_from_vec(glider()).unwrap();
    let before = alive(&board, 20, 20);
    assert_eq!(before, vec![(10, 10), (11, 11), (12, 9), (12, 10), (12, 11)]);
    for _ in 0..4 {
        board.next();
    }
    let moved: Vec<(usize, usize)> = before.iter().map(|&(row, col)| (row + 1, col + 1)).collect();
    assert_eq!(alive(&board, 20, 20), moved);
    for row in 0..20 {
        for col in 0..20 {
            let v = board.vitality(row, col).unwrap();
            assert!(v == 255 || v == 0 || (251..=254).contains(&v));
        }
    }
}

#[test]
fn glider_after_each_of_four_steps() {
    let mut board = Board::new(20, 20, true).unwrap();
    board.population_from_vec(glider()).unwrap();
    board.next();
    assert_eq!(alive(&board, 20, 20), vec![(11, 9), (11, 11), (12, 10), (12, 11), (13, 10)]);
    board.next();
    assert_eq!(alive(&board, 20, 20), vec![(11, 11), (12, 9), (12, 11), (13, 10), (13, 11)]);
    board.next();
    assert_eq!(alive(&board, 20, 20), vec![(11, 10), (12, 11), (12, 12), (13, 10), (13, 11)]);
    board.next();
    assert_eq!(alive(&board, 20, 20), vec![(11, 11), (12, 12), (13, 10), (13, 11), (13, 12)]);
}

#[test]
fn blinker_turns_and_turns_back() {
    let mut board = board_with(5, 5, &[(2, 1), (2, 2), (2, 3)]);
    board.next();
    assert_eq!(alive(&board, 5, 5), vec![(1, 2), (2, 2), (3, 2)]);
    assert_eq!(board.vitality(2, 1), Some(254));
    assert_eq!(board.vitality(2, 3), Some(254));
    board.next();
    assert_eq!(alive(&board, 5, 5), vec![(2, 1), (2, 2), (2, 3)]);
    assert_eq!(board.vitality(1, 2), Some(254));
    assert_eq!(board.vitality(3, 2), Some(254));
}

#[test]
fn block_of_four_stays() {
    let mut board = board_with(4, 4, &[(1, 1), (1, 2), (2, 1), (2, 2)]);
    for _ in 0..10 {
        board.next();
        let mut expected = vec![vec![0u8; 4]; 4];
        for (row, col) in [(1, 1), (1, 2), (2, 1), (2, 2)] {
            expected[row][col] = 255;
        }
        assert_eq!(vitalities(&board, 4, 4), expected);
    }
}

#[test]
fn cells_beyond_the_edge_count_as_dead() {
    // a blinker along the upper edge: the cell above its middle does not exist
    let mut board = board_with(3, 3, &[(0, 0), (0, 1), (0, 2)]);
    board.next();
    assert_eq!(
        vitalities(&board, 3, 3),
        vec![vec![254, 255, 254], vec![0, 255, 0], vec![0, 0, 0]]
    );
    board.next();
    assert_eq!(
        vitalities(&board, 3, 3),
        vec![vec![253, 254, 253], vec![0, 254, 0], vec![0, 0, 0]]
    );
}

#[test]
fn corner_cell_with_two_neighbours_survives() {
    let mut board = board_with(2, 2, &[(0, 0), (0, 1), (1, 0)]);
    board.next();
    assert_eq!(vitalities(&board, 2, 2), vec![vec![255, 255], vec![255, 255]]);
    board.next();
    assert_eq!(vitalities(&board, 2, 2), vec![vec![255, 255], vec![255, 255]]);
}

#[test]
fn cooling_cell_is_no_living_neighbour() {
    // (0, 0) cools to 254; with it alive, (1, 1) would have three neighbours
    let mut board = board_with(3, 3, &[(0, 0)]);
    board.next();
    assert_eq!(board.vitality(0, 0), Some(254));
    board.population_from_vec(vec![(0, 2), (2, 0)]).unwrap();
    board.next();
    assert_eq!(board.vitality(1, 1), Some(0));
    assert_eq!(board.vitality(0, 0), Some(253));
}

#[test]
fn cooling_cell_with_three_neighbours_is_born_again() {
    let mut board = board_with(3, 3, &[(1, 1)]);
    board.next();
    assert_eq!(board.vitality(1, 1), Some(254));
    board.population_from_vec(vec![(0, 0), (0, 2), (2, 0)]).unwrap();
    board.next();
    assert_eq!(board.vitality(1, 1), Some(255));
}

#[test]
fn dead_cell_with_three_neighbours_is_born() {
    let mut board = board_with(3, 3, &[(0, 0), (0, 2), (2, 1)]);
    board.next();
    assert_eq!(
        vitalities(&board, 3, 3),
        vec![vec![254, 0, 254], vec![0, 255, 0], vec![0, 254, 0]]
    );
}

#[test]
fn step_reads_the_old_generation_only() {
    // a row of three in a grid of one row: the ends die, the middle lives,
    // whatever was written before it
    let mut board = board_with(1, 3, &[(0, 0), (0, 1), (0, 2)]);
    board.next();
    assert_eq!(vitalities(&board, 1, 3), vec![vec![254, 255, 254]]);
    board.next();
    assert_eq!(vitalities(&board, 1, 3), vec![vec![253, 254, 253]]);
}

#[test]
fn dead_board_stays_dead() {
    let mut board = Board::new(6, 6, true).unwrap();
    for _ in 0..5 {
        board.next();
        assert_eq!(vitalities(&board, 6, 6), vec![vec![0u8; 6]; 6]);
    }
}

#[test]
fn old_generation_does_not_come_back() {
    // the plane written two steps ago is written anew in full
    let mut board = board_with(3, 3, &[(1, 1)]);
    for _ in 0..254 {
        board.next();
    }
    assert_eq!(board.vitality(1, 1), Some(1));
    board.next();
    assert_eq!(board.vitality(1, 1), Some(0));
    board.next();
    assert_eq!(board.vitality(1, 1), Some(0));
    board.next();
    assert_eq!(board.vitality(1, 1), Some(0));
}
