use vstd::prelude::*;
use vstd::string::*;
use crate::bridge::card::{card_names, BingoSyncCard};
use crate::bridge::message::{ExportRequest, MessageToBackend};
use crate::grid::board::Board;
use crate::grid::extract::active_texts;
use crate::grid::size::GridSize;
use crate::text::texts_of;

verus! {

/// The text of a placeholder card: one space.
pub open spec fn blank() -> Seq<char> {
    seq![' ']
}

/// Number of placeholders in front of the first row.
pub open spec fn lead_blanks(size: GridSize) -> int {
    match size {
        GridSize::Size3 => 6,
        _ => 0,
    }
}

/// Number of placeholders behind each row.
pub open spec fn gap_blanks(size: GridSize) -> int {
    match size {
        GridSize::Size3 => 2,
        GridSize::Size4 => 1,
        _ => 0,
    }
}

/// Number of placeholders behind the last row and its gap.
pub open spec fn tail_blanks(size: GridSize) -> int {
    match size {
        GridSize::Size3 => 4,
        GridSize::Size4 => 5,
        _ => 0,
    }
}

/// Number of whole rows of `size.spec_side()` texts among `count` texts.
pub open spec fn whole_rows(count: nat, size: GridSize) -> int {
    count as int / size.spec_side()
}

/// Number of card names that `count` texts are padded to.
pub open spec fn padded_len(count: nat, size: GridSize) -> int {
    lead_blanks(size) + whole_rows(count, size) * (size.spec_side() + gap_blanks(size))
        + tail_blanks(size)
}

/// The card name at place `i` of the padded list: a text where a row
/// stands, a placeholder in the lead, in a gap and in the tail.
pub open spec fn padded_name(texts: Seq<Seq<char>>, size: GridSize, i: int) -> Seq<char> {
    let stride = size.spec_side() + gap_blanks(size);
    let j = i - lead_blanks(size);
    if 0 <= j < whole_rows(texts.len(), size) * stride && j % stride < size.spec_side() {
        texts[(j / stride) * size.spec_side() + j % stride]
    } else {
        blank()
    }
}

/// The card names for the texts of a board: the lead, then each row of
/// `size.spec_side()` texts followed by its gap, then the tail.
pub open spec fn padded_names(texts: Seq<Seq<char>>, size: GridSize) -> Seq<Seq<char>> {
    Seq::new(padded_len(texts.len(), size) as nat, |i: int| padded_name(texts, size, i))
}

/// The placeholder counts for a grid size. They are looked up, not
/// computed: sizes 3 and 4 have their own, the larger sizes have none.
#[derive(Debug, Clone, Copy, PartialEq, Eq, Structural)]
pub struct Padding {
    pub lead: usize,
    pub gap: usize,
    pub tail: usize,
}

impl Padding {
    pub fn of(size: GridSize) -> (padding: Padding)
        ensures
            padding.lead == lead_blanks(size),
            padding.gap == gap_blanks(size),
            padding.tail == tail_blanks(size),
    {
        match size {
            GridSize::Size3 => Padding { lead: 6, gap: 2, tail: 4 },
            GridSize::Size4 => Padding { lead: 0, gap: 1, tail: 5 },
            _ => Padding { lead: 0, gap: 0, tail: 0 },
        }
    }
}

/// A placeholder card.
pub fn blank_card() -> (card: BingoSyncCard)
    ensures
        card@ == blank(),
{
    proof {
        reveal_strlit(" ");
    }
    let card = BingoSyncCard { name: String::from_str(" ") };
    assert(card@ =~= blank());
    card
}

/// Appends `count` placeholder cards.
fn push_blanks(cards: &mut Vec<BingoSyncCard>, count: usize)
    ensures
        final(cards)@.len() == old(cards)@.len() + count,
        forall|i: int| 0 <= i < old(cards)@.len() ==> final(cards)@[i] == old(cards)@[i],
        forall|i: int|
            old(cards)@.len() <= i < final(cards)@.len() ==> (#[trigger] final(cards)@[i])@
                == blank(),
{
    let mut done: usize = 0;
    while done < count
        invariant
            done <= count,
            cards@.len() == old(cards)@.len() + done,
            forall|i: int| 0 <= i < old(cards)@.len() ==> cards@[i] == old(cards)@[i],
            forall|i: int| old(cards)@.len() <= i < cards@.len() ==> (#[trigger] cards@[i])@
                == blank(),
        decreases count - done,
    {
        cards.push(blank_card());
        done += 1;
    }
}

/// The BingoSync cards for the texts of a board's active cells.
///
/// BingoSync lays its cards out five to a row, so the rows of a smaller
/// grid are moved to the middle with placeholders. Texts behind the last
/// whole row are left out.
pub fn bingo_sync_cards(texts: &Vec<String>, size: GridSize) -> (cards: Vec<BingoSyncCard>)
    ensures
        card_names(cards@) == padded_names(texts_of(texts@), size),
        cards@.len() == padded_len(texts@.len(), size),
{
    let padding = Padding::of(size);
    let side: usize = size.side();
    let rows: usize = texts.len() / side;
    let ghost stride = side + padding.gap;
    let ghost all = texts_of(texts@);
    let mut cards: Vec<BingoSyncCard> = Vec::new();
    push_blanks(&mut cards, padding.lead);
    let mut row: usize = 0;
    assert(rows * side <= texts.len()) by (nonlinear_arith)
        requires
            rows == texts.len() / side,
            side > 0,
    ;
    while row < rows
        invariant
            row <= rows,
            rows == whole_rows(texts@.len(), size),
            rows * side <= texts.len(),
            side == size.spec_side(),
            stride == side + padding.gap,
            padding.lead == lead_blanks(size),
            padding.gap == gap_blanks(size),
            all == texts_of(texts@),
            cards@.len() == padding.lead + row * stride,
            forall|i: int| 0 <= i < cards@.len() ==> (#[trigger] cards@[i])@ == padded_name(
                all,
                size,
                i,
            ),
        decreases rows - row,
    {
        assert((row + 1) * side <= rows * side) by (nonlinear_arith)
            requires
                row < rows,
                side > 0,
        ;
        assert(row * side + side == (row + 1) * side) by (nonlinear_arith);
        assert(row * stride + stride == (row + 1) * stride) by (nonlinear_arith);
        assert((row + 1) * stride <= rows * stride) by (nonlinear_arith)
            requires
                row < rows,
                stride > 0,
        ;
        let mut col: usize = 0;
        while col < side
            invariant
                col <= side,
                row < rows,
                row * side + side <= texts.len(),
                side == size.spec_side(),
                stride == side + padding.gap,
                padding.lead == lead_blanks(size),
                padding.gap == gap_blanks(size),
                rows == whole_rows(texts@.len(), size),
                row * stride + stride <= rows * stride,
                all == texts_of(texts@),
                cards@.len() == padding.lead + row * stride + col,
                forall|i: int| 0 <= i < cards@.len() ==> (#[trigger] cards@[i])@ == padded_name(
                    all,
                    size,
                    i,
                ),
            decreases side - col,
        {
            proof {
                lemma_place(row as int, stride, col as int);
            }
            cards.push(BingoSyncCard { name: texts[row * side + col].clone() });
            col += 1;
        }
        let ghost filled = cards@;
        push_blanks(&mut cards, padding.gap);
        proof {
            assert forall|i: int| 0 <= i < cards@.len() implies (#[trigger] cards@[i])@
                == padded_name(all, size, i) by {
                if i >= filled.len() {
                    lemma_place(row as int, stride, i - padding.lead - row * stride);
                }
            }
        }
        row += 1;
    }
    push_blanks(&mut cards, padding.tail);
    proof {
        assert forall|i: int| 0 <= i < cards@.len() implies (#[trigger] cards@[i])@ == padded_name(
            all,
            size,
            i,
        ) by {}
        assert(card_names(cards@) =~= padded_names(all, size));
    }
    cards
}

/// Place `row * stride + col` lies in row `row`, at offset `col`.
proof fn lemma_place(row: int, stride: int, col: int)
    requires
        0 <= row,
        0 <= col < stride,
    ensures
        (row * stride + col) / stride == row,
        (row * stride + col) % stride == col,
{
    assert((row * stride + col) / stride == row && (row * stride + col) % stride == col)
        by (nonlinear_arith)
        requires
            0 <= row,
            0 <= col < stride,
    ;
}

/// The request that asks the worker for a BingoSync file of the board.
pub fn bingo_sync_request(board: &Board, size: GridSize) -> (request: MessageToBackend)
    ensures
        request@ == (ExportRequest::BingoSync {
            names: padded_names(active_texts(board@, size), size),
        }),
{
    let texts = board.active_cells(size);
    MessageToBackend::CreateBingoSyncFile { data: bingo_sync_cards(&texts, size) }
}

/// The padded list of a full square of texts has the lead, then `side`
/// rows of `side` texts and a gap, then the tail.
pub proof fn lemma_padded_len(texts: Seq<Seq<char>>, size: GridSize)
    requires
        texts.len() == size.spec_side() * size.spec_side(),
    ensures
        padded_names(texts, size).len() == lead_blanks(size) + size.spec_side() * (
        size.spec_side() + gap_blanks(size)) + tail_blanks(size),
        size.spec_side() <= 4 ==> padded_names(texts, size).len() == 25,
        size.spec_side() >= 5 ==> padded_names(texts, size).len() == texts.len(),
{
    let s = size.spec_side();
    let gap = gap_blanks(size);
    assert((s * s) / s == s) by (nonlinear_arith)
        requires
            3 <= s <= 9,
    ;
    assert(s <= 4 ==> s * (s + gap) == 15 + 5 * (s - 3)) by (nonlinear_arith)
        requires
            s == 3 && gap == 2 || s == 4 && gap == 1 || s >= 5,
    ;
    assert(s >= 5 ==> s * (s + gap) == s * s) by (nonlinear_arith)
        requires
            s >= 5 ==> gap == 0,
    ;
}

/// The first `lead` and the last `tail` names of the padded list of a full
/// square of texts are placeholders.
pub proof fn lemma_padded_frame(texts: Seq<Seq<char>>, size: GridSize, i: int)
    requires
        texts.len() == size.spec_side() * size.spec_side(),
        0 <= i < padded_names(texts, size).len(),
    ensures
        i < lead_blanks(size) ==> padded_names(texts, size)[i] == blank(),
        i >= padded_names(texts, size).len() - tail_blanks(size) ==> padded_names(texts, size)[i]
            == blank(),
{
    lemma_padded_len(texts, size);
}

/// In the padded list of a full square of texts, row `row` starts at place
/// `lead + row * (side + gap)`: there stand its `side` texts, and behind
/// them the placeholders of its gap.
pub proof fn lemma_padded_row(texts: Seq<Seq<char>>, size: GridSize, row: int, col: int)
    requires
        texts.len() == size.spec_side() * size.spec_side(),
        0 <= row < size.spec_side(),
        0 <= col < size.spec_side() + gap_blanks(size),
    ensures
        0 <= lead_blanks(size) + row * (size.spec_side() + gap_blanks(size)) + col < padded_names(
            texts,
            size,
        ).len(),
        col < size.spec_side() ==> padded_names(texts, size)[lead_blanks(size) + row * (
        size.spec_side() + gap_blanks(size)) + col] == texts[row * size.spec_side() + col],
        col >= size.spec_side() ==> padded_names(texts, size)[lead_blanks(size) + row * (
        size.spec_side() + gap_blanks(size)) + col] == blank(),
{
    let s = size.spec_side();
    let stride = s + gap_blanks(size);
    assert((s * s) / s == s) by (nonlinear_arith)
        requires
            3 <= s <= 9,
    ;
    lemma_place(row, stride, col);
    assert(0 <= row * stride && row * stride + stride <= s * stride) by (nonlinear_arith)
        requires
            0 <= row < s,
            stride > 0,
    ;
}

/// From side 5 on nothing is padded: the card names of a full square of
/// texts are the texts themselves, in their order.
pub proof fn lemma_unpadded_from_five(texts: Seq<Seq<char>>, size: GridSize)
    requires
        texts.len() == size.spec_side() * size.spec_side(),
        size.spec_side() >= 5,
    ensures
        padded_names(texts, size) == texts,
{
    let s = size.spec_side();
    assert((s * s) / s == s) by (nonlinear_arith)
        requires
            3 <= s <= 9,
    ;
    assert forall|i: int| 0 <= i < s * s implies padded_name(texts, size, i) == texts[i] by {
        assert((i / s) * s + i % s == i && 0 <= i % s < s) by (nonlinear_arith)
            requires
                3 <= s <= 9,
                0 <= i,
        ;
    }
    assert(padded_names(texts, size) =~= texts);
}

} // verus!
