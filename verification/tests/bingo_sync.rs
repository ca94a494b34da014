use bingo_gen::bridge::message::MessageToBackend;
use bingo_gen::export::bingo_sync::{bingo_sync_cards, bingo_sync_request, blank_card, Padding};
use bingo_gen::grid::board::Board;
use bingo_gen::grid::size::GridSize;

fn names(texts: &[&str], size: GridSize) -> Vec<String> {
    let texts: Vec<String> = texts.iter().map(|t| t.to_string()).collect();
    bingo_sync_cards(&texts, size).into_iter().map(|c| c.name).collect()
}

fn board_with_active(size: GridSize, texts: &[&str]) -> Board {
    let mut cells: Vec<String> = vec![String::from("inert"); 81];
    let mut next = 0;
    for idx in 0..81 {
        if size.is_active(idx) {
            cells[idx] = texts[next].to_string();
            next += 1;
        }
    }
    assert_eq!(next, texts.len());
    Board::from_cells(cells).unwrap()
}

#[test]
fn padding_table() {
    assert_eq!(Padding::of(GridSize::Size3), Padding { lead: 6, gap: 2, tail: 4 });
    assert_eq!(Padding::of(GridSize::Size4), Padding { lead: 0, gap: 1, tail: 5 });
    for size in [GridSize::Size5, GridSize::Size6, GridSize::Size7, GridSize::Size8, GridSize::Size9] {
        assert_eq!(Padding::of(size), Padding { lead: 0, gap: 0, tail: 0 });
    }
}

#[test]
fn placeholder_is_one_space() {
    assert_eq!(blank_card().name, " ");
}

#[test]
fn size_three_is_centred_in_five_by_five() {
    let got = names(&["A", "B", "C", "D", "E", "F", "G", "H", "I"], GridSize::Size3);
    let expected = vec![
        " ", " ", " ", " ", " ",
        " ", "A", "B", "C", " ",
        " ", "D", "E", "F", " ",
        " ", "G", "H", "I", " ",
        " ", " ", " ", " ", " ",
    ];
    assert_eq!(got, expected);
    assert_eq!(got.len(), 6 + 3 * (3 + 2) + 4);
}

#[test]
fn size_three_starts_with_six_and_ends_with_four_blanks() {
    let got = names(&["A", "B", "C", "D", "E", "F", "G", "H", "I"], GridSize::Size3);
    assert!(got[..6].iter().all(|n| n == " "));
    assert!(got[got.len() - 4..].iter().all(|n| n == " "));
    assert_eq!(got[6], "A");
}

#[test]
fn size_four_fills_five_by_five() {
    let texts: Vec<String> = (0..16).map(|i| format!("t{}", i)).collect();
    let refs: Vec<&str> = texts.iter().map(|t| t.as_str()).collect();
    let got = names(&refs, GridSize::Size4);
    let expected = vec![
        "t0", "t1", "t2", "t3", " ",
        "t4", "t5", "t6", "t7", " ",
        "t8", "t9", "t10", "t11", " ",
        "t12", "t13", "t14", "t15", " ",
        " ", " ", " ", " ", " ",
    ];
    assert_eq!(got, expected);
}

#[test]
fn size_five_and_more_are_not_padded() {
    for size in [GridSize::Size5, GridSize::Size6, GridSize::Size7, GridSize::Size8, GridSize::Size9] {
        let count = size.side() * size.side();
        let texts: Vec<String> = (0..count).map(|i| format!("g{}", i)).collect();
        let got: Vec<String> = bingo_sync_cards(&texts, size).into_iter().map(|c| c.name).collect();
        assert_eq!(got.len(), count);
        assert_eq!(got, texts);
    }
}

#[test]
fn texts_behind_the_last_whole_row_are_left_out() {
    let got = names(&["a", "b", "c", "d", "e", "f", "g"], GridSize::Size5);
    assert_eq!(got, vec!["a", "b", "c", "d", "e"]);
    let got = names(&["a", "b"], GridSize::Size3);
    assert_eq!(got, vec![" "; 10]);
}

#[test]
fn no_texts_give_lead_and_tail_only() {
    assert_eq!(names(&[], GridSize::Size3).len(), 10);
    assert_eq!(names(&[], GridSize::Size4).len(), 5);
    assert_eq!(names(&[], GridSize::Size5).len(), 0);
}

#[test]
fn size_five_board_of_single_characters() {
    let letters: Vec<String> = ('a'..='y').map(|c| c.to_string()).collect();
    let refs: Vec<&str> = letters.iter().map(|t| t.as_str()).collect();
    let board = board_with_active(GridSize::Size5, &refs);
    match bingo_sync_request(&board, GridSize::Size5) {
        MessageToBackend::CreateBingoSyncFile { data } => {
            assert_eq!(data.len(), 25);
            let got: Vec<String> = data.into_iter().map(|c| c.name).collect();
            assert_eq!(got, letters);
        }
        other => panic!("unexpected request: {:?}", other),
    }
}

#[test]
fn size_three_board_a_to_i() {
    let board = board_with_active(GridSize::Size3, &["A", "B", "C", "D", "E", "F", "G", "H", "I"]);
    match bingo_sync_request(&board, GridSize::Size3) {
        MessageToBackend::CreateBingoSyncFile { data } => {
            let got: Vec<String> = data.into_iter().map(|c| c.name).collect();
            let expected = vec![
                " ", " ", " ", " ", " ", " ", "A", "B", "C", " ", " ", "D", "E", "F", " ", " ",
                "G", "H", "I", " ", " ", " ", " ", " ", " ",
            ];
            assert_eq!(got, expected);
        }
        other => panic!("unexpected request: {:?}", other),
    }
}
