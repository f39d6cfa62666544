use game_of_life::board::Board;
use game_of_life::symbol::{push_line, symbol_for, Symbol};

fn stepped(fadeout: bool, steps: usize) -> Board {
    let mut board = Board::new(2, 3, fadeout).unwrap();
    board.population_from_vec(vec![(0, 1)]).unwrap();
    for _ in 0..steps {
        board.next();
    }
    board
}

#[test]
fn symbols_by_vitality_with_afterglow() {
    assert_eq!(symbol_for(255, true), Symbol::Alive);
    assert_eq!(symbol_for(254, true), Symbol::Recent);
    assert_eq!(symbol_for(253, true), Symbol::Recent);
    assert_eq!(symbol_for(252, true), Symbol::Fading);
    assert_eq!(symbol_for(249, true), Symbol::Fading);
    assert_eq!(symbol_for(248, true), Symbol::Faint);
    assert_eq!(symbol_for(241, true), Symbol::Faint);
    assert_eq!(symbol_for(240, true), Symbol::Blank);
    assert_eq!(symbol_for(1, true), Symbol::Blank);
    assert_eq!(symbol_for(0, true), Symbol::Blank);
}

#[test]
fn symbols_by_vitality_without_afterglow() {
    assert_eq!(symbol_for(255, false), Symbol::Alive);
    for v in 0..255u8 {
        assert_eq!(symbol_for(v, false), Symbol::Blank);
    }
}

#[test]
fn glyphs_of_the_symbols() {
    assert_eq!(Symbol::Alive.glyph(), '●');
    assert_eq!(Symbol::Recent.glyph(), '◍');
    assert_eq!(Symbol::Fading.glyph(), '○');
    assert_eq!(Symbol::Faint.glyph(), '◌');
    assert_eq!(Symbol::Blank.glyph(), ' ');
    for symbol in [Symbol::Alive, Symbol::Recent, Symbol::Fading, Symbol::Faint, Symbol::Blank] {
        assert_eq!(symbol.glyph_str(), symbol.glyph().to_string());
    }
}

#[test]
fn line_is_appended_with_a_line_feed() {
    let mut text = String::from("x");
    push_line(&mut text, &vec![Symbol::Alive, Symbol::Blank, Symbol::Faint]);
    assert_eq!(text, "x● ◌\n");
    push_line(&mut text, &Vec::new());
    assert_eq!(text, "x● ◌\n\n");
}

#[test]
fn render_has_a_symbol_for_each_cell_of_the_grid() {
    let board = stepped(true, 0);
    assert_eq!(
        board.render(),
        vec![
            vec![Symbol::Blank, Symbol::Alive, Symbol::Blank],
            vec![Symbol::Blank, Symbol::Blank, Symbol::Blank],
        ]
    );
}

#[test]
fn render_twice_gives_the_same() {
    let mut board = Board::new(13, 13, true).unwrap();
    board.population_from_vec(vec![(10, 10), (11, 11), (12, 9), (12, 10), (12, 11)]).unwrap();
    for _ in 0..3 {
        let first = board.render();
        let second = board.render();
        assert_eq!(first, second);
        assert_eq!(board.to_text(), board.to_text());
        board.next();
    }
}

#[test]
fn render_does_not_change_the_board() {
    let board = stepped(true, 5);
    let before: Vec<Option<u8>> = (0..3).map(|col| board.vitality(0, col)).collect();
    let _ = board.render();
    let _ = board.to_text();
    let after: Vec<Option<u8>> = (0..3).map(|col| board.vitality(0, col)).collect();
    assert_eq!(before, after);
    assert_eq!(after, vec![Some(0), Some(250), Some(0)]);
}

#[test]
fn afterglow_fades_in_three_bands() {
    let mut board = stepped(true, 0);
    let mut seen = Vec::new();
    for _ in 0..16 {
        board.next();
        seen.push(board.render()[0][1]);
    }
    let mut expected = Vec::new();
    expected.extend([Symbol::Recent; 2]);
    expected.extend([Symbol::Fading; 4]);
    expected.extend([Symbol::Faint; 8]);
    expected.extend([Symbol::Blank; 2]);
    assert_eq!(seen, expected);
}

#[test]
fn without_afterglow_a_dead_cell_is_blank_at_once() {
    let mut board = stepped(false, 0);
    assert_eq!(board.render()[0][1], Symbol::Alive);
    for _ in 0..16 {
        board.next();
        assert_eq!(board.render(), vec![vec![Symbol::Blank; 3]; 2]);
    }
}

#[test]
fn text_has_a_line_for_each_row() {
    assert_eq!(stepped(true, 0).to_text(), " ● \n   \n");
    assert_eq!(stepped(true, 1).to_text(), " ◍ \n   \n");
    assert_eq!(stepped(true, 3).to_text(), " ○ \n   \n");
    assert_eq!(stepped(true, 7).to_text(), " ◌ \n   \n");
    assert_eq!(stepped(true, 15).to_text(), "   \n   \n");
    assert_eq!(stepped(false, 1).to_text(), "   \n   \n");
}

#[test]
fn text_of_a_glider() {
    let mut board = Board::new(4, 4, false).unwrap();
    board.population_from_vec(vec![(0, 1), (1, 2), (2, 0), (2, 1), (2, 2)]).unwrap();
    assert_eq!(board.to_text(), " ●  \n  ● \n●●● \n    \n");
    board.next();
    assert_eq!(board.to_text(), "    \n● ● \n ●● \n ●  \n");
}
