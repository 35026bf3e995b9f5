use nattty::Board;
use nattty::Mark;

#[test]
fn swap_returns_the_other_mark() {
    assert_eq!(Mark::X.swap(), Mark::O);
    assert_eq!(Mark::O.swap(), Mark::X);
}

#[test]
fn new_board_is_empty_and_has_no_winner() {
    let board = Board::new();
    for i in 0..9 {
        assert_eq!(board.get(i), None);
        assert!(board.is_valid_move(i));
    }
    assert_eq!(board.get_winner(), None);
}

#[test]
fn marking_returns_a_fresh_snapshot() {
    let board = Board::new();
    let marked = board.mark(4, Mark::X);
    assert_eq!(board.get(4), None);
    assert_eq!(marked.get(4), Some(Mark::X));
    for i in 0..9 {
        if i != 4 {
            assert_eq!(marked.get(i), None);
        }
    }
    assert!(!marked.is_valid_move(4));
    assert!(marked.is_valid_move(0));
}

fn board_of(squares: &[usize], mark: Mark) -> Board {
    let mut board = Board::new();
    for &i in squares {
        board = board.mark(i, mark);
    }
    board
}

#[test]
fn every_row_column_and_diagonal_wins() {
    let triples: [[usize; 3]; 8] = [
        [0, 1, 2],
        [3, 4, 5],
        [6, 7, 8],
        [0, 3, 6],
        [1, 4, 7],
        [2, 5, 8],
        [0, 4, 8],
        [2, 4, 6],
    ];
    for triple in triples {
        assert_eq!(board_of(&triple, Mark::X).get_winner(), Some(Mark::X));
        assert_eq!(board_of(&triple, Mark::O).get_winner(), Some(Mark::O));
    }
}

#[test]
fn a_mixed_line_does_not_win() {
    let board = Board::new()
        .mark(0, Mark::X)
        .mark(1, Mark::O)
        .mark(2, Mark::X)
        .mark(3, Mark::O)
        .mark(4, Mark::X)
        .mark(5, Mark::O);
    // Rows 0-1-2 and 3-4-5 are full but mixed; no column or diagonal is full.
    assert_eq!(board.get_winner(), None);
}

#[test]
fn two_marks_on_a_triple_do_not_win() {
    let board = Board::new().mark(0, Mark::X).mark(1, Mark::X);
    assert_eq!(board.get_winner(), None);
}

#[test]
fn display_squares_labels_every_square() {
    let board = Board::new().mark(0, Mark::X).mark(4, Mark::O);
    let labels = board.display_squares();
    assert_eq!(labels.len(), 9);
    assert_eq!(labels[0], 'X');
    assert_eq!(labels[4], 'O');
    for i in [1, 2, 3, 5, 6, 7, 8] {
        assert_eq!(labels[i], ' ');
    }
}
