use vstd::prelude::*;
use crate::grid::size::{lemma_nth_active, GridSize};

verus! {

/// The texts of the active cells of an 81-cell store, in row-major order.
pub open spec fn active_texts(cells: Seq<Seq<char>>, size: GridSize) -> Seq<Seq<char>> {
    Seq::new(
        (size.spec_side() * size.spec_side()) as nat,
        |k: int| cells[size.nth_active(k)],
    )
}

/// Number of indices below `n` that pass the activity test, counted one by
/// one.
pub open spec fn count_active(size: GridSize, n: nat) -> nat
    decreases n,
{
    if n == 0 {
        0
    } else if size.active_index(n - 1) {
        count_active(size, (n - 1) as nat) + 1
    } else {
        count_active(size, (n - 1) as nat)
    }
}

/// Passing over one more cell raises the number of active cells seen by one
/// if the cell is active, and then that cell is the next in row-major order;
/// otherwise the number stays.
pub proof fn lemma_active_below_step(size: GridSize, n: int)
    requires
        0 <= n < 81,
    ensures
        size.active_index(n) ==> size.active_below(n + 1) == size.active_below(n) + 1,
        size.active_index(n) ==> size.nth_active(size.active_below(n)) == n,
        !size.active_index(n) ==> size.active_below(n + 1) == size.active_below(n),
        0 <= size.active_below(n) <= size.spec_side() * size.spec_side(),
        size.active_index(n) ==> size.active_below(n) < size.spec_side() * size.spec_side(),
{
    let s = size.spec_side();
    let y = n / 9;
    let x = n % 9;
    if x == 8 {
        assert((n + 1) / 9 == y + 1 && (n + 1) % 9 == 0);
    } else {
        assert((n + 1) / 9 == y && (n + 1) % 9 == x + 1);
    }
    if size.active_index(n) {
        let row = y - size.spec_first();
        let col = x - size.spec_first();
        assert((row * s + col) / s == row && (row * s + col) % s == col) by (nonlinear_arith)
            requires
                0 <= row,
                0 <= col < s,
        ;
        assert(row * s + col < s * s) by (nonlinear_arith)
            requires
                0 <= row < s,
                0 <= col < s,
        ;
    }
    let rows = if y <= size.spec_first() {
        0
    } else if y >= size.spec_end() {
        s
    } else {
        y - size.spec_first()
    };
    let cols = size.active_below(n) - rows * s;
    assert(0 <= rows * s + cols <= s * s) by (nonlinear_arith)
        requires
            3 <= s <= 9,
            0 <= rows <= s,
            0 <= cols <= s,
            rows < s || cols == 0,
    ;
}

/// Behind the last cell all `side * side` active cells have been seen.
pub proof fn lemma_active_below_all(size: GridSize)
    ensures
        size.active_below(81) == size.spec_side() * size.spec_side(),
{
}

/// Counting the cells that pass the activity test one by one gives the same
/// number as the geometry of the square.
pub proof fn lemma_count_active(size: GridSize, n: nat)
    requires
        n <= 81,
    ensures
        count_active(size, n) == size.active_below(n as int),
    decreases n,
{
    if n > 0 {
        lemma_count_active(size, (n - 1) as nat);
        lemma_active_below_step(size, n - 1);
    }
}

/// For every grid size and every store of 81 cells, exactly `side * side`
/// cells pass the activity test, and that many texts are extracted.
pub proof fn lemma_active_count(cells: Seq<Seq<char>>, size: GridSize)
    requires
        cells.len() == 81,
    ensures
        count_active(size, 81) == size.spec_side() * size.spec_side(),
        active_texts(cells, size).len() == size.spec_side() * size.spec_side(),
{
    lemma_count_active(size, 81);
    lemma_active_below_all(size);
}

/// The extracted texts come in row-major order: of two active cells the
/// one extracted first lies in an earlier row, or in the same row and an
/// earlier column.
pub proof fn lemma_row_major(size: GridSize, j: int, k: int)
    requires
        0 <= j < k < size.spec_side() * size.spec_side(),
    ensures
        size.nth_active(j) < size.nth_active(k),
        size.nth_active(j) / 9 < size.nth_active(k) / 9 || (size.nth_active(j) / 9
            == size.nth_active(k) / 9 && size.nth_active(j) % 9 < size.nth_active(k) % 9),
{
    lemma_nth_active(size, j);
    lemma_nth_active(size, k);
    let s = size.spec_side();
    assert(j / s < k / s || (j / s == k / s && j % s < k % s)) by (nonlinear_arith)
        requires
            3 <= s <= 9,
            0 <= j < k,
    ;
    assert(0 <= j % s < s && 0 <= k % s < s);
    assert(0 <= k / s < s) by (nonlinear_arith)
        requires
            3 <= s <= 9,
            0 <= k < s * s,
    ;
    assert(0 <= j / s);
}

/// Extraction passes over no active cell and takes in no inert one: the
/// extracted text number `k` is that of an active cell, and every active
/// cell of the store is extracted, at the place of its rank among them.
pub proof fn lemma_extraction_exact(cells: Seq<Seq<char>>, size: GridSize, idx: int)
    requires
        cells.len() == 81,
        0 <= idx < 81,
        size.active_index(idx),
    ensures
        0 <= size.active_below(idx) < active_texts(cells, size).len(),
        active_texts(cells, size)[size.active_below(idx)] == cells[idx],
{
    lemma_active_below_step(size, idx);
}

} // verus!
