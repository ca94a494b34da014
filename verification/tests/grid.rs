use bingo_gen::grid::board::Board;
use bingo_gen::grid::size::{GridSize, BOARD_CELLS, BOARD_SIDE};

const SIZES: [GridSize; 7] = [
    GridSize::Size3,
    GridSize::Size4,
    GridSize::Size5,
    GridSize::Size6,
    GridSize::Size7,
    GridSize::Size8,
    GridSize::Size9,
];

fn numbered_board() -> Board {
    let cells: Vec<String> = (0..81).map(|i| format!("c{}", i)).collect();
    Board::from_cells(cells).unwrap()
}

#[test]
fn store_is_nine_by_nine() {
    assert_eq!(BOARD_SIDE, 9);
    assert_eq!(BOARD_CELLS, 81);
}

#[test]
fn side_of_each_size() {
    let sides: Vec<usize> = SIZES.iter().map(|s| s.side()).collect();
    assert_eq!(sides, vec![3, 4, 5, 6, 7, 8, 9]);
}

#[test]
fn from_repr_knows_sides_three_to_nine() {
    for (i, size) in SIZES.iter().enumerate() {
        assert_eq!(GridSize::from_repr(i + 3), Some(*size));
    }
    assert_eq!(GridSize::from_repr(0), None);
    assert_eq!(GridSize::from_repr(2), None);
    assert_eq!(GridSize::from_repr(10), None);
    assert_eq!(GridSize::from_repr(usize::MAX), None);
}

#[test]
fn default_size_is_five() {
    assert_eq!(GridSize::default(), GridSize::Size5);
}

#[test]
fn border_of_each_size() {
    let borders: Vec<usize> = SIZES.iter().map(|s| s.border()).collect();
    assert_eq!(borders, vec![3, 2, 2, 1, 1, 0, 0]);
}

#[test]
fn parity_of_each_size() {
    let parities: Vec<usize> = SIZES.iter().map(|s| s.parity()).collect();
    assert_eq!(parities, vec![0, 1, 0, 1, 0, 1, 0]);
}

#[test]
fn active_count_is_side_squared() {
    for size in SIZES.iter() {
        let count = (0..81).filter(|idx| size.is_active(*idx)).count();
        assert_eq!(count, size.side() * size.side());
        assert_eq!(numbered_board().active_cells(*size).len(), size.side() * size.side());
    }
}

#[test]
fn active_square_of_size_three() {
    let active: Vec<usize> = (0..81).filter(|idx| GridSize::Size3.is_active(*idx)).collect();
    assert_eq!(active, vec![30, 31, 32, 39, 40, 41, 48, 49, 50]);
}

#[test]
fn active_square_of_size_four_leans_to_the_far_side() {
    let active: Vec<usize> = (0..81).filter(|idx| GridSize::Size4.is_active(*idx)).collect();
    assert_eq!(
        active,
        vec![30, 31, 32, 33, 39, 40, 41, 42, 48, 49, 50, 51, 57, 58, 59, 60]
    );
}

#[test]
fn size_nine_activates_every_cell() {
    for idx in 0..81 {
        assert!(GridSize::Size9.is_active(idx));
    }
}

#[test]
fn size_eight_leaves_out_first_row_and_column() {
    for idx in 0..81 {
        let expected = idx % 9 >= 1 && idx / 9 >= 1;
        assert_eq!(GridSize::Size8.is_active(idx), expected);
    }
}

#[test]
fn extraction_is_row_major() {
    let board = numbered_board();
    for size in SIZES.iter() {
        let expected: Vec<String> = (0..81)
            .filter(|idx| size.is_active(*idx))
            .map(|idx| format!("c{}", idx))
            .collect();
        assert_eq!(board.active_cells(*size), expected);
    }
}

#[test]
fn extraction_of_size_three_reads_the_middle() {
    let board = numbered_board();
    let texts = board.active_cells(GridSize::Size3);
    assert_eq!(texts, vec!["c30", "c31", "c32", "c39", "c40", "c41", "c48", "c49", "c50"]);
}

#[test]
fn extraction_is_repeatable() {
    let board = numbered_board();
    assert_eq!(board.active_cells(GridSize::Size6), board.active_cells(GridSize::Size6));
}

#[test]
fn inert_cells_are_never_read() {
    let mut cells: Vec<String> = vec![String::from("inert"); 81];
    for idx in 0..81 {
        if GridSize::Size5.is_active(idx) {
            cells[idx] = String::from("live");
        }
    }
    let board = Board::from_cells(cells).unwrap();
    let texts = board.active_cells(GridSize::Size5);
    assert_eq!(texts.len(), 25);
    assert!(texts.iter().all(|t| t == "live"));
}

#[test]
fn board_takes_exactly_81_cells() {
    assert!(Board::from_cells(vec![String::new(); 81]).is_some());
    assert!(Board::from_cells(vec![String::new(); 80]).is_none());
    assert!(Board::from_cells(vec![String::new(); 82]).is_none());
    assert!(Board::from_cells(Vec::new()).is_none());
}

#[test]
fn new_board_is_empty() {
    let board = Board::new();
    for idx in 0..81 {
        assert_eq!(board.cell(idx).unwrap(), "");
    }
    assert!(board.cell(81).is_none());
}

#[test]
fn cell_reads_by_row_major_index() {
    let board = numbered_board();
    assert_eq!(board.cell(0).unwrap(), "c0");
    assert_eq!(board.cell(40).unwrap(), "c40");
    assert_eq!(board.cell(80).unwrap(), "c80");
    assert!(board.cell(usize::MAX).is_none());
}

#[test]
fn all_sizes_in_ascending_order() {
    assert_eq!(GridSize::all(), SIZES);
    let sides: Vec<usize> = GridSize::all().iter().map(|s| s.side()).collect();
    assert_eq!(sides, vec![3, 4, 5, 6, 7, 8, 9]);
}

#[test]
fn cloned_board_holds_the_same_texts() {
    let board = numbered_board();
    let copy = board.clone();
    for idx in 0..81 {
        assert_eq!(copy.cell(idx), board.cell(idx));
    }
    assert_eq!(copy.active_cells(GridSize::Size7), board.active_cells(GridSize::Size7));
}
