use vstd::prelude::*;
use vstd::string::*;
use crate::grid::extract::{active_texts, lemma_active_below_all, lemma_active_below_step};
use crate::grid::size::{lemma_nth_active, GridSize, BOARD_CELLS};
use crate::text::texts_of;

verus! {

/// The 9x9 store of goal texts. It always holds 81 cells, whatever grid size
/// is selected.
#[derive(Debug)]
pub struct Board {
    cells: Vec<String>,
}

impl View for Board {
    type V = Seq<Seq<char>>;

    closed spec fn view(&self) -> Seq<Seq<char>> {
        texts_of(self.cells@)
    }
}

impl Clone for Board {
    /// A board with the same texts.
    fn clone(&self) -> (copy: Self)
        ensures
            copy@ == self@,
    {
        proof {
            use_type_invariant(self);
        }
        let mut cells: Vec<String> = Vec::new();
        let mut idx: usize = 0;
        while idx < BOARD_CELLS
            invariant
                idx <= BOARD_CELLS,
                self.cells.len() == BOARD_CELLS,
                cells.len() == idx,
                forall|i: int| 0 <= i < idx ==> cells@[i]@ == self.cells@[i]@,
            decreases BOARD_CELLS - idx,
        {
            cells.push(self.cells[idx].clone());
            idx += 1;
        }
        let copy = Board { cells };
        assert(copy@ =~= self@);
        copy
    }
}

impl Board {
    #[verifier::type_invariant]
    spec fn well_formed(self) -> bool {
        self.cells.len() == BOARD_CELLS
    }

    /// A board of 81 empty cells.
    pub fn new() -> (board: Board)
        ensures
            board@ == Seq::new(81, |i: int| Seq::<char>::empty()),
    {
        let mut cells: Vec<String> = Vec::new();
        let mut idx: usize = 0;
        while idx < BOARD_CELLS
            invariant
                idx <= BOARD_CELLS,
                cells.len() == idx,
                forall|i: int| 0 <= i < idx ==> cells[i]@ == Seq::<char>::empty(),
            decreases BOARD_CELLS - idx,
        {
            cells.push(String::new());
            idx += 1;
        }
        let board = Board { cells };
        assert(board@ =~= Seq::new(81, |i: int| Seq::<char>::empty()));
        board
    }

    /// The board that holds `cells` in row-major order, if there are 81 of
    /// them.
    pub fn from_cells(cells: Vec<String>) -> (board: Option<Board>)
        ensures
            board is Some <==> cells.len() == 81,
            board matches Some(b) ==> b@ == texts_of(cells@),
    {
        if cells.len() == BOARD_CELLS {
            Some(Board { cells })
        } else {
            None
        }
    }

    /// The text of the cell with row-major index `idx`.
    pub fn cell(&self, idx: usize) -> (text: Option<&String>)
        ensures
            self@.len() == 81,
            text is Some <==> idx < 81,
            text matches Some(t) ==> t@ == self@[idx as int],
    {
        proof {
            use_type_invariant(self);
        }
        if idx < BOARD_CELLS {
            Some(&self.cells[idx])
        } else {
            None
        }
    }

    /// The texts of the active cells: all 81 cells are visited in row-major
    /// order, and those inside the active square are collected as they come.
    pub fn active_cells(&self, size: GridSize) -> (out: Vec<String>)
        ensures
            texts_of(out@) == active_texts(self@, size),
            out.len() == size.spec_side() * size.spec_side(),
    {
        proof {
            use_type_invariant(self);
        }
        let mut out: Vec<String> = Vec::new();
        let mut idx: usize = 0;
        while idx < BOARD_CELLS
            invariant
                idx <= BOARD_CELLS,
                self.cells.len() == BOARD_CELLS,
                out.len() == size.active_below(idx as int),
                forall|k: int|
                    0 <= k < out.len() ==> (#[trigger] out@[k])@ == self.cells@[size.nth_active(
                        k,
                    )]@,
            decreases BOARD_CELLS - idx,
        {
            proof {
                lemma_active_below_step(size, idx as int);
            }
            if size.is_active(idx) {
                out.push(self.cells[idx].clone());
            }
            idx += 1;
        }
        proof {
            lemma_active_below_all(size);
            assert forall|k: int| 0 <= k < out.len() implies texts_of(out@)[k] == active_texts(
                self@,
                size,
            )[k] by {
                lemma_nth_active(size, k);
            }
            assert(texts_of(out@) =~= active_texts(self@, size));
        }
        out
    }
}

} // verus!
