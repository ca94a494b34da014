use vstd::prelude::*;
use vstd::string::*;
use crate::bridge::outcome::SendOutcome;
use crate::bridge::handle::{backend_send_fatal, BackendHandle};
use crate::bridge::message::{ExportRequest, MessageToBackend, MessageToFrontend, Notification};
use crate::export::bingo_sync::{bingo_sync_request, padded_names};
use crate::export::lockout_live::{
    goal_fits,
    has_long_goal,
    lockout_board,
    lockout_live_request,
    long_goal_warning,
    too_long,
};
use crate::grid::board::Board;
use crate::grid::extract::{active_texts, lemma_extraction_exact};
use crate::grid::size::GridSize;

verus! {

/// What the generator page remembers between two render passes.
pub ghost struct PageState {
    pub size: GridSize,
    pub trigger_clear: bool,
    pub save_bingosync: bool,
    pub save_lockout: bool,
}

/// What a render pass has to carry out, as plain values.
pub ghost struct EffectsView {
    pub requests: Seq<ExportRequest>,
    pub warning: Option<Notification>,
    pub clear_inputs: bool,
}

/// What a render pass has to carry out.
#[derive(Debug)]
pub struct Effects {
    /// The requests for the worker, in the order in which they are sent.
    pub requests: Vec<MessageToBackend>,
    /// The warning to show in place of a request that was turned down.
    pub warning: Option<MessageToFrontend>,
    /// Whether every cell of the board is to be emptied.
    pub clear_inputs: bool,
}

/// What a render pass has carried out, and what is left for the window.
#[derive(Debug)]
pub struct RenderReport {
    /// What became of each request, in the order in which they were sent.
    pub deliveries: Vec<SendOutcome<MessageToBackend>>,
    /// Whether one of the sends ended in a way that must stop the program.
    pub fatal: bool,
    /// The warning to show in place of a request that was turned down.
    pub warning: Option<MessageToFrontend>,
    /// Whether every cell of the board is to be emptied.
    pub clear_inputs: bool,
}

/// What a sequence of requests asks for.
pub open spec fn requests_of(messages: Seq<MessageToBackend>) -> Seq<ExportRequest> {
    Seq::new(messages.len(), |i: int| messages[i]@)
}

/// What a warning says, if there is one.
pub open spec fn warning_of(warning: Option<MessageToFrontend>) -> Option<Notification> {
    match warning {
        Some(message) => Some(message@),
        None => None,
    }
}

impl View for Effects {
    type V = EffectsView;

    open spec fn view(&self) -> EffectsView {
        EffectsView {
            requests: requests_of(self.requests@),
            warning: warning_of(self.warning),
            clear_inputs: self.clear_inputs,
        }
    }
}

/// The BingoSync request of a pass, if saving to BingoSync is pending.
pub open spec fn pending_bingo_sync(state: PageState, cells: Seq<Seq<char>>) -> Seq<
    ExportRequest,
> {
    if state.save_bingosync {
        seq![
            ExportRequest::BingoSync {
                names: padded_names(active_texts(cells, state.size), state.size),
            },
        ]
    } else {
        Seq::empty()
    }
}

/// The Lockout Live request of a pass, if saving to Lockout Live is
/// pending and no active cell holds too long a text.
pub open spec fn pending_lockout_live(state: PageState, cells: Seq<Seq<char>>) -> Seq<
    ExportRequest,
> {
    if state.save_lockout && !has_long_goal(active_texts(cells, state.size)) {
        seq![ExportRequest::LockoutLive { board: lockout_board(active_texts(cells, state.size)) }]
    } else {
        Seq::empty()
    }
}

/// What the pass over a page in `state` with the board `cells` carries
/// out: the BingoSync request first, then the Lockout Live request or the
/// warning that takes its place, then the clearing of the board.
pub open spec fn pending_effects(state: PageState, cells: Seq<Seq<char>>) -> EffectsView {
    EffectsView {
        requests: pending_bingo_sync(state, cells) + pending_lockout_live(state, cells),
        warning: if state.save_lockout && has_long_goal(active_texts(cells, state.size)) {
            Some(long_goal_warning())
        } else {
            None
        },
        clear_inputs: state.trigger_clear,
    }
}

/// The state after a pass: the grid size stays, nothing is pending.
pub open spec fn settled(state: PageState) -> PageState {
    PageState {
        size: state.size,
        trigger_clear: false,
        save_bingosync: false,
        save_lockout: false,
    }
}

/// The state after a click on button number `choice` of the grid-size
/// group. The buttons stand for the sides 3 to 9; a new side also asks
/// for the board to be cleared.
pub open spec fn after_size_choice(state: PageState, choice: Option<usize>) -> PageState {
    match choice {
        Some(v) if v <= 6 => PageState {
            size: size_of_button(v as int),
            trigger_clear: state.trigger_clear || v + 3 != state.size.spec_side(),
            save_bingosync: state.save_bingosync,
            save_lockout: state.save_lockout,
        },
        _ => state,
    }
}

/// The grid size that button number `v` of the grid-size group stands for.
pub open spec fn size_of_button(v: int) -> GridSize {
    if v == 0 {
        GridSize::Size3
    } else if v == 1 {
        GridSize::Size4
    } else if v == 2 {
        GridSize::Size5
    } else if v == 3 {
        GridSize::Size6
    } else if v == 4 {
        GridSize::Size7
    } else if v == 5 {
        GridSize::Size8
    } else {
        GridSize::Size9
    }
}

/// The state after a click on button number `choice` of the action group:
/// 0 randomizes, which changes nothing yet, 1 clears the board, 2 saves to
/// BingoSync, 3 saves to Lockout Live.
pub open spec fn after_action_choice(state: PageState, choice: Option<usize>) -> PageState {
    match choice {
        Some(v) if v == 1 => PageState { trigger_clear: true, ..state },
        Some(v) if v == 2 => PageState { save_bingosync: true, ..state },
        Some(v) if v == 3 => PageState { save_lockout: true, ..state },
        _ => state,
    }
}

/// The randomize action. It is not available yet and does nothing.
pub fn randomize_action() {
}

/// The generator page: the selected grid size and the intents of the user
/// that the next render pass has to carry out.
#[derive(Debug, Clone)]
pub struct GeneratorPage {
    selected_grid_size: GridSize,
    trigger_clear: bool,
    save_bingosync: bool,
    save_lockout: bool,
}

impl View for GeneratorPage {
    type V = PageState;

    closed spec fn view(&self) -> PageState {
        PageState {
            size: self.selected_grid_size,
            trigger_clear: self.trigger_clear,
            save_bingosync: self.save_bingosync,
            save_lockout: self.save_lockout,
        }
    }
}

impl GeneratorPage {
    /// A page with the grid size 5 selected and nothing pending.
    pub fn new() -> (page: Self)
        ensures
            page@ == (PageState {
                size: GridSize::Size5,
                trigger_clear: false,
                save_bingosync: false,
                save_lockout: false,
            }),
    {
        GeneratorPage {
            selected_grid_size: GridSize::Size5,
            trigger_clear: false,
            save_bingosync: false,
            save_lockout: false,
        }
    }

    pub fn selected_grid_size(&self) -> (size: GridSize)
        ensures
            size == self@.size,
    {
        self.selected_grid_size
    }

    /// Whether the board is to be cleared in the next pass.
    pub fn clear_pending(&self) -> (pending: bool)
        ensures
            pending == self@.trigger_clear,
    {
        self.trigger_clear
    }

    /// Whether a BingoSync file is to be asked for in the next pass.
    pub fn bingo_sync_pending(&self) -> (pending: bool)
        ensures
            pending == self@.save_bingosync,
    {
        self.save_bingosync
    }

    /// Whether a Lockout Live file is to be asked for in the next pass.
    pub fn lockout_live_pending(&self) -> (pending: bool)
        ensures
            pending == self@.save_lockout,
    {
        self.save_lockout
    }

    /// A click on button number `choice` of the grid-size group. Says
    /// whether the page is to be drawn again: it is not for a number that
    /// no button has.
    pub fn select_grid_size(&mut self, choice: Option<usize>) -> (redraw: bool)
        ensures
            final(self)@ == after_size_choice(old(self)@, choice),
            redraw == !(choice matches Some(v) && v > 6),
    {
        match choice {
            Some(v) => {
                if v > 6 {
                    return false;
                }
                if v + 3 != self.selected_grid_size.side() {
                    self.trigger_clear = true;
                }
                match GridSize::from_repr(v + 3) {
                    Some(size) => {
                        self.selected_grid_size = size;
                    },
                    None => {},
                }
                true
            },
            None => true,
        }
    }

    /// A click on button number `choice` of the action group. Says whether
    /// the page is to be drawn again: it is not for a number that no
    /// button has.
    pub fn board_action(&mut self, choice: Option<usize>) -> (redraw: bool)
        ensures
            final(self)@ == after_action_choice(old(self)@, choice),
            redraw == (choice matches Some(v) && v <= 3),
    {
        match choice {
            Some(0) => {
                randomize_action();
                true
            },
            Some(1) => {
                self.trigger_clear = true;
                true
            },
            Some(2) => {
                self.save_bingosync = true;
                true
            },
            Some(3) => {
                self.save_lockout = true;
                true
            },
            _ => false,
        }
    }

    /// Whether the BingoSync button is switched off: BingoSync takes grids
    /// up to side 5.
    pub fn bingo_sync_disabled(&self) -> (disabled: bool)
        ensures
            disabled == (self@.size.spec_side() > 5),
    {
        self.selected_grid_size.side() > 5
    }

    /// Whether the cell with row-major index `idx` is switched off: every
    /// cell outside the active square is.
    pub fn cell_disabled(&self, idx: usize) -> (disabled: bool)
        ensures
            disabled == !self@.size.active_index(idx as int),
    {
        !self.selected_grid_size.is_active(idx)
    }

    /// Whether a cell with this text is marked as too long for Lockout
    /// Live.
    pub fn cell_flagged(text: &str) -> (flagged: bool)
        ensures
            flagged == too_long(text@),
    {
        !goal_fits(text)
    }

    /// What the render pass has to carry out for the board as it stands.
    /// Afterwards nothing is pending.
    pub fn take_effects(&mut self, board: &Board) -> (effects: Effects)
        ensures
            effects@ == pending_effects(old(self)@, board@),
            final(self)@ == settled(old(self)@),
    {
        let mut requests: Vec<MessageToBackend> = Vec::new();
        let mut warning: Option<MessageToFrontend> = None;
        if self.save_bingosync {
            requests.push(bingo_sync_request(board, self.selected_grid_size));
            self.save_bingosync = false;
        }
        assert(requests_of(requests@) =~= pending_bingo_sync(old(self)@, board@));
        if self.save_lockout {
            match lockout_live_request(board, self.selected_grid_size) {
                Ok(request) => {
                    requests.push(request);
                },
                Err(message) => {
                    warning = Some(message);
                },
            }
            self.save_lockout = false;
        }
        assert(requests_of(requests@) =~= pending_bingo_sync(old(self)@, board@)
            + pending_lockout_live(old(self)@, board@));
        let clear_inputs = self.trigger_clear;
        self.trigger_clear = false;
        Effects { requests, warning, clear_inputs }
    }

    /// One render pass: the pending requests are sent to the worker, and
    /// what is left for the window comes back, together with what became
    /// of each request. Afterwards nothing is pending.
    pub fn render(&mut self, board: &Board, backend: &BackendHandle) -> (report: RenderReport)
        ensures
            final(self)@ == settled(old(self)@),
            warning_of(report.warning) == pending_effects(old(self)@, board@).warning,
            report.clear_inputs == old(self)@.trigger_clear,
            report.deliveries@.len() == pending_effects(old(self)@, board@).requests.len(),
            forall|i: int|
                0 <= i < report.deliveries@.len() ==> (
                #[trigger] report.deliveries@[i].returned() matches Some(m) ==> m@
                    == pending_effects(old(self)@, board@).requests[i]),
            report.fatal == exists|i: int|
                0 <= i < report.deliveries@.len() && backend_send_fatal(
                    backend.policy(),
                    #[trigger] report.deliveries@[i],
                ),
    {
        let effects = self.take_effects(board);
        let Effects { requests, warning, clear_inputs } = effects;
        let ghost asked = requests_of(requests@);
        let mut deliveries: Vec<SendOutcome<MessageToBackend>> = Vec::new();
        let mut fatal = false;
        let mut requests = requests;
        let ghost total = requests@.len();
        while requests.len() > 0
            invariant
                requests@.len() + deliveries@.len() == total,
                total == asked.len(),
                forall|i: int|
                    0 <= i < requests@.len() ==> (#[trigger] requests@[i])@ == asked[deliveries@.len()
                        + i],
                forall|i: int|
                    0 <= i < deliveries@.len() ==> (
                    #[trigger] deliveries@[i].returned() matches Some(m) ==> m@ == asked[i]),
                fatal == exists|i: int|
                    0 <= i < deliveries@.len() && backend_send_fatal(
                        backend.policy(),
                        #[trigger] deliveries@[i],
                    ),
            decreases requests@.len(),
        {
            let ghost before = deliveries@;
            let ghost was_fatal = fatal;
            let request = requests.remove(0);
            let outcome = backend.send(request);
            let ghost sent = outcome;
            if backend.is_fatal(&outcome) {
                fatal = true;
            }
            deliveries.push(outcome);
            proof {
                assert(deliveries@[before.len() as int] == sent);
                assert forall|i: int| 0 <= i < before.len() implies #[trigger] deliveries@[i]
                    == before[i] by {}
                if was_fatal {
                    let w = choose|i: int|
                        0 <= i < before.len() && backend_send_fatal(
                            backend.policy(),
                            #[trigger] before[i],
                        );
                    assert(backend_send_fatal(backend.policy(), deliveries@[w]));
                }
            }
        }
        RenderReport { deliveries, fatal, warning, clear_inputs }
    }
}

/// A text of more than 60 characters in an active cell is a long goal of
/// the board, wherever in the active square it stands.
pub proof fn lemma_long_goal_found(cells: Seq<Seq<char>>, size: GridSize, idx: int)
    requires
        cells.len() == 81,
        0 <= idx < 81,
        size.active_index(idx),
        cells[idx].len() >= 61,
    ensures
        has_long_goal(active_texts(cells, size)),
{
    lemma_extraction_exact(cells, size, idx);
    let k = size.active_below(idx);
    assert(too_long(active_texts(cells, size)[k]));
}

/// Saving to Lockout Live is all or nothing. With a long goal among the
/// active cells the pass sends no request, so that no file is written,
/// and shows one warning. Without one it sends exactly one request, for
/// the whole board, and shows no warning.
pub proof fn lemma_lockout_live_all_or_nothing(state: PageState, cells: Seq<Seq<char>>)
    requires
        cells.len() == 81,
        state.save_lockout,
        !state.save_bingosync,
    ensures
        has_long_goal(active_texts(cells, state.size)) ==> pending_effects(
            state,
            cells,
        ).requests.len() == 0 && pending_effects(state, cells).warning == Some(
            long_goal_warning(),
        ),
        !has_long_goal(active_texts(cells, state.size)) ==> pending_effects(state, cells).requests
            == seq![
            ExportRequest::LockoutLive { board: lockout_board(active_texts(cells, state.size)) },
        ] && pending_effects(state, cells).warning is None,
{
    assert(pending_bingo_sync(state, cells) + pending_lockout_live(state, cells)
        =~= pending_lockout_live(state, cells));
}

impl Default for GeneratorPage {
    fn default() -> (page: Self)
        ensures
            page@ == (PageState {
                size: GridSize::Size5,
                trigger_clear: false,
                save_bingosync: false,
                save_lockout: false,
            }),
    {
        GeneratorPage::new()
    }
}

} // verus!
