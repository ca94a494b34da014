use vstd::prelude::*;
use vstd::string::*;
use crate::bridge::card::{
    limits_are_a_map,
    limits_of,
    objectives_of,
    plain_objective,
    LimitGroup,
    LimitGroupView,
    LockoutLiveBoard,
    LockoutLiveBoardView,
    LockoutLiveCard,
    LockoutLiveCardView,
};
use crate::bridge::message::{ExportRequest, MessageToBackend, MessageToFrontend, Notification, NotificationType};
use crate::grid::board::Board;
use crate::grid::extract::active_texts;
use crate::grid::size::GridSize;
use crate::text::texts_of;

verus! {

/// Longest goal text, in characters, that Lockout Live takes.
pub const MAX_GOAL_CHARS: usize = 60;

/// Whether a goal text has more characters than Lockout Live takes.
pub open spec fn too_long(text: Seq<char>) -> bool {
    text.len() > MAX_GOAL_CHARS
}

/// Whether one of the texts is too long.
pub open spec fn has_long_goal(texts: Seq<Seq<char>>) -> bool {
    exists|k: int| 0 <= k < texts.len() && too_long(#[trigger] texts[k])
}

/// The objectives for a list of goal texts: one for each text, in the
/// order of the texts, numbered from 1.
pub open spec fn lockout_objectives(texts: Seq<Seq<char>>) -> Seq<LockoutLiveCardView> {
    Seq::new(texts.len(), |k: int| plain_objective(texts[k], (k + 1) as nat))
}

/// The limits that every generated board carries: none for the board and
/// none for a line.
pub open spec fn no_limits() -> Seq<LimitGroupView> {
    seq![
        LimitGroupView { scope: "board"@, bounds: Seq::empty() },
        LimitGroupView { scope: "line"@, bounds: Seq::empty() },
    ]
}

/// The Lockout Live board for a list of goal texts.
pub open spec fn lockout_board(texts: Seq<Seq<char>>) -> LockoutLiveBoardView {
    LockoutLiveBoardView {
        version: "0.0.0"@,
        game: "None"@,
        objectives: lockout_objectives(texts),
        limits: no_limits(),
    }
}

/// What the user is told when a goal text is too long.
pub open spec fn long_goal_warning() -> Notification {
    Notification {
        kind: NotificationType::Warning,
        text: "Lockout Live can't have a task text longer than 60 characters."@,
    }
}

/// Whether Lockout Live takes a goal text of this length.
pub fn goal_fits(text: &str) -> (fits: bool)
    ensures
        fits == !too_long(text@),
{
    text.unicode_len() <= MAX_GOAL_CHARS
}

/// Whether every one of the texts fits.
pub fn all_goals_fit(texts: &Vec<String>) -> (fit: bool)
    ensures
        fit == !has_long_goal(texts_of(texts@)),
{
    let ghost all = texts_of(texts@);
    let mut k: usize = 0;
    while k < texts.len()
        invariant
            k <= texts.len(),
            all == texts_of(texts@),
            forall|i: int| 0 <= i < k ==> !too_long(#[trigger] all[i]),
        decreases texts.len() - k,
    {
        if !goal_fits(texts[k].as_str()) {
            assert(too_long(all[k as int]));
            return false;
        }
        k += 1;
    }
    true
}

/// One objective for each text, numbered from 1 in the order of the texts.
pub fn lockout_live_cards(texts: &Vec<String>) -> (cards: Vec<LockoutLiveCard>)
    ensures
        objectives_of(cards@) == lockout_objectives(texts_of(texts@)),
        cards@.len() == texts@.len(),
{
    let mut cards: Vec<LockoutLiveCard> = Vec::new();
    let mut k: usize = 0;
    while k < texts.len()
        invariant
            k <= texts.len(),
            cards@.len() == k,
            forall|i: int| 0 <= i < k ==> (#[trigger] cards@[i])@ == plain_objective(
                texts@[i]@,
                (i + 1) as nat,
            ),
        decreases texts.len() - k,
    {
        cards.push(LockoutLiveCard::new(texts[k].clone(), k + 1));
        k += 1;
    }
    assert(objectives_of(cards@) =~= lockout_objectives(texts_of(texts@)));
    cards
}

/// The two empty limit groups of a generated board.
fn empty_limits() -> (limits: Vec<LimitGroup>)
    ensures
        limits_of(limits@) == no_limits(),
{
    let mut limits: Vec<LimitGroup> = Vec::new();
    limits.push(LimitGroup { scope: String::from_str("board"), bounds: Vec::new() });
    limits.push(LimitGroup { scope: String::from_str("line"), bounds: Vec::new() });
    assert(limits@[0]@.bounds =~= Seq::empty());
    assert(limits@[1]@.bounds =~= Seq::empty());
    assert(limits_of(limits@) =~= no_limits());
    limits
}

/// The Lockout Live board for the texts of a board's active cells, unless
/// one of them is too long: then there is no board at all.
pub fn lockout_live_board(texts: &Vec<String>) -> (board: Option<LockoutLiveBoard>)
    ensures
        board is None <==> has_long_goal(texts_of(texts@)),
        board matches Some(b) ==> b@ == lockout_board(texts_of(texts@)),
{
    let objectives = lockout_live_cards(texts);
    if !all_goals_fit(texts) {
        return None;
    }
    Some(
        LockoutLiveBoard {
            version: String::from_str("0.0.0"),
            game: String::from_str("None"),
            objectives,
            limits: empty_limits(),
        },
    )
}

/// The warning for a goal text that is too long.
pub fn long_goal_notification() -> (message: MessageToFrontend)
    ensures
        message@ == long_goal_warning(),
{
    MessageToFrontend::AddNotification {
        notification_type: NotificationType::Warning,
        message: String::from_str(
            "Lockout Live can't have a task text longer than 60 characters.",
        ),
    }
}

/// The request that asks the worker for a Lockout Live file of the board,
/// or, where an active cell holds too long a text, the warning to show
/// in its place.
pub fn lockout_live_request(board: &Board, size: GridSize) -> (request: Result<
    MessageToBackend,
    MessageToFrontend,
>)
    ensures
        request is Err <==> has_long_goal(active_texts(board@, size)),
        request matches Ok(message) ==> message@ == (ExportRequest::LockoutLive {
            board: lockout_board(active_texts(board@, size)),
        }),
        request matches Err(warning) ==> warning@ == long_goal_warning(),
{
    let texts = board.active_cells(size);
    match lockout_live_board(&texts) {
        Some(data) => Ok(MessageToBackend::CreateLockoutLiveFile { data }),
        None => Err(long_goal_notification()),
    }
}

/// The objectives of a board are numbered 1, 2, 3 and so on without a gap,
/// in the order in which the texts were read.
pub proof fn lemma_positions_contiguous(texts: Seq<Seq<char>>, k: int)
    requires
        0 <= k < texts.len(),
    ensures
        lockout_board(texts).objectives.len() == texts.len(),
        lockout_board(texts).objectives[k].preferred_grid_position == k + 1,
        lockout_board(texts).objectives[k].goal == texts[k],
        lockout_board(texts).objectives[k].individual_limit == 1,
{
}

/// The limits of a generated board name each scope once.
pub proof fn lemma_no_limits_is_a_map()
    ensures
        limits_are_a_map(no_limits()),
{
    reveal_strlit("board");
    reveal_strlit("line");
    assert("board"@.len() != "line"@.len());
}

} // verus!
