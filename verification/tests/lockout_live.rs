use bingo_gen::bridge::card::LockoutLiveCard;
use bingo_gen::bridge::message::{MessageToBackend, MessageToFrontend, NotificationType};
use bingo_gen::export::lockout_live::{
    all_goals_fit, goal_fits, lockout_live_board, lockout_live_cards, lockout_live_request,
    long_goal_notification, MAX_GOAL_CHARS,
};
use bingo_gen::grid::board::Board;
use bingo_gen::grid::size::GridSize;

const WARNING: &str = "Lockout Live can't have a task text longer than 60 characters.";

fn numbered(count: usize) -> Vec<String> {
    (0..count).map(|i| format!("goal {}", i)).collect()
}

#[test]
fn limit_is_sixty_characters() {
    assert_eq!(MAX_GOAL_CHARS, 60);
    assert!(goal_fits(""));
    assert!(goal_fits(&"x".repeat(60)));
    assert!(!goal_fits(&"x".repeat(61)));
    assert!(!goal_fits(&"x".repeat(200)));
}

#[test]
fn limit_counts_characters_not_bytes() {
    assert!(goal_fits(&"é".repeat(60)));
    assert!(!goal_fits(&"é".repeat(61)));
}

#[test]
fn new_card_has_limit_one_and_empty_lists() {
    let card = LockoutLiveCard::new(String::from("win"), 7);
    assert_eq!(card.goal, "win");
    assert_eq!(card.individual_limit, 1);
    assert_eq!(card.preferred_grid_position, 7);
    assert!(card.range().is_empty());
    assert!(card.board_categories().is_empty());
    assert!(card.line_categories().is_empty());
    assert!(card.icons().is_empty());
}

#[test]
fn default_card() {
    let card = LockoutLiveCard::default();
    assert_eq!(card.goal, "");
    assert_eq!(card.individual_limit, 1);
    assert_eq!(card.preferred_grid_position, 0);
    assert!(card.range().is_empty());
}

#[test]
fn cards_are_numbered_from_one_in_order() {
    let texts = numbered(25);
    let cards = lockout_live_cards(&texts);
    assert_eq!(cards.len(), 25);
    for (k, card) in cards.iter().enumerate() {
        assert_eq!(card.goal, texts[k]);
        assert_eq!(card.preferred_grid_position, k + 1);
        assert_eq!(card.individual_limit, 1);
    }
}

#[test]
fn all_goals_fit_finds_one_long_goal() {
    let mut texts = numbered(9);
    assert!(all_goals_fit(&texts));
    texts[8] = "y".repeat(61);
    assert!(!all_goals_fit(&texts));
    assert!(all_goals_fit(&Vec::new()));
}

#[test]
fn board_for_valid_goals() {
    let texts = numbered(9);
    let board = lockout_live_board(&texts).unwrap();
    assert_eq!(board.version, "0.0.0");
    assert_eq!(board.game, "None");
    assert_eq!(board.objectives.len(), 9);
    let positions: Vec<usize> = board.objectives.iter().map(|c| c.preferred_grid_position).collect();
    assert_eq!(positions, vec![1, 2, 3, 4, 5, 6, 7, 8, 9]);
    assert_eq!(board.limits.len(), 2);
    assert_eq!(board.limits[0].scope, "board");
    assert!(board.limits[0].bounds.is_empty());
    assert_eq!(board.limits[1].scope, "line");
    assert!(board.limits[1].bounds.is_empty());
}

#[test]
fn one_long_goal_rejects_the_whole_board() {
    for at in [0, 12, 24] {
        let mut texts = numbered(25);
        texts[at] = "z".repeat(61);
        assert!(lockout_live_board(&texts).is_none());
    }
}

#[test]
fn goal_of_sixty_characters_is_accepted() {
    let mut texts = numbered(25);
    texts[3] = "z".repeat(60);
    let board = lockout_live_board(&texts).unwrap();
    assert_eq!(board.objectives[3].goal.len(), 60);
}

#[test]
fn warning_text() {
    match long_goal_notification() {
        MessageToFrontend::AddNotification { notification_type, message } => {
            assert_eq!(notification_type, NotificationType::Warning);
            assert_eq!(message, WARNING);
        }
    }
}

#[test]
fn size_five_board_with_one_goal_of_61_characters() {
    let mut cells: Vec<String> = (0..81).map(|i| format!("g{}", i)).collect();
    cells[40] = "x".repeat(61);
    let board = Board::from_cells(cells).unwrap();
    match lockout_live_request(&board, GridSize::Size5) {
        Err(MessageToFrontend::AddNotification { notification_type, message }) => {
            assert_eq!(notification_type, NotificationType::Warning);
            assert_eq!(message, WARNING);
        }
        Ok(request) => panic!("a request was made: {:?}", request),
    }
}

#[test]
fn long_text_in_an_inert_cell_does_not_matter() {
    let mut cells: Vec<String> = (0..81).map(|i| format!("g{}", i)).collect();
    cells[0] = "x".repeat(100);
    let board = Board::from_cells(cells).unwrap();
    assert!(lockout_live_request(&board, GridSize::Size5).is_ok());
    assert!(lockout_live_request(&board, GridSize::Size9).is_err());
}

#[test]
fn request_for_a_valid_board() {
    let cells: Vec<String> = (0..81).map(|i| format!("g{}", i)).collect();
    let board = Board::from_cells(cells).unwrap();
    for size in [GridSize::Size3, GridSize::Size4, GridSize::Size7, GridSize::Size9] {
        match lockout_live_request(&board, size) {
            Ok(MessageToBackend::CreateLockoutLiveFile { data }) => {
                let count = size.side() * size.side();
                assert_eq!(data.objectives.len(), count);
                let goals: Vec<String> = data.objectives.iter().map(|c| c.goal.clone()).collect();
                assert_eq!(goals, board.active_cells(size));
                let positions: Vec<usize> =
                    data.objectives.iter().map(|c| c.preferred_grid_position).collect();
                assert_eq!(positions, (1..=count).collect::<Vec<usize>>());
            }
            other => panic!("unexpected: {:?}", other),
        }
    }
}
