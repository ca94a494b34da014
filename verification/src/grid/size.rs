use vstd::prelude::*;

verus! {

/// Side length of the backing store.
pub const BOARD_SIDE: usize = 9;

/// Number of cells of the backing store.
pub const BOARD_CELLS: usize = 81;

/// Side length of the active square.
#[derive(Debug, Clone, Copy, PartialEq, Eq, Structural, Hash)]
pub enum GridSize {
    Size3,
    Size4,
    Size5,
    Size6,
    Size7,
    Size8,
    Size9,
}

impl GridSize {
    /// The side length as a number, 3 to 9.
    pub open spec fn spec_side(self) -> int {
        match self {
            GridSize::Size3 => 3,
            GridSize::Size4 => 4,
            GridSize::Size5 => 5,
            GridSize::Size6 => 6,
            GridSize::Size7 => 7,
            GridSize::Size8 => 8,
            GridSize::Size9 => 9,
        }
    }

    /// Width of the inert margin on the far side of the active square.
    pub open spec fn spec_border(self) -> int {
        (9 - self.spec_side()) / 2
    }

    /// 1 for an even side, 0 for an odd one: an even square cannot be
    /// centred, and gives up one more line on the near side.
    pub open spec fn spec_parity(self) -> int {
        (self.spec_side() + 1) % 2
    }

    /// First active row, and first active column.
    pub open spec fn spec_first(self) -> int {
        self.spec_border() + self.spec_parity()
    }

    /// One past the last active row, and one past the last active column.
    pub open spec fn spec_end(self) -> int {
        9 - self.spec_border()
    }

    /// Whether the cell in column `x` of row `y` is active.
    pub open spec fn active_at(self, x: int, y: int) -> bool {
        &&& self.spec_first() <= x < self.spec_end()
        &&& self.spec_first() <= y < self.spec_end()
    }

    /// Whether the cell with row-major index `idx` is active.
    pub open spec fn active_index(self, idx: int) -> bool {
        self.active_at(idx % 9, idx / 9)
    }

    /// Row-major index in the store of the `k`-th active cell.
    pub open spec fn nth_active(self, k: int) -> int {
        (self.spec_first() + k / self.spec_side()) * 9 + self.spec_first() + k % self.spec_side()
    }

    /// Number of active cells with a row-major index below `n`.
    pub open spec fn active_below(self, n: int) -> int {
        let y = n / 9;
        let x = n % 9;
        let rows = if y <= self.spec_first() {
            0
        } else if y >= self.spec_end() {
            self.spec_side()
        } else {
            y - self.spec_first()
        };
        let cols = if y < self.spec_first() || y >= self.spec_end() || x <= self.spec_first() {
            0
        } else if x >= self.spec_end() {
            self.spec_side()
        } else {
            x - self.spec_first()
        };
        rows * self.spec_side() + cols
    }

    pub fn side(self) -> (r: usize)
        ensures
            r == self.spec_side(),
            3 <= r <= 9,
    {
        match self {
            GridSize::Size3 => 3,
            GridSize::Size4 => 4,
            GridSize::Size5 => 5,
            GridSize::Size6 => 6,
            GridSize::Size7 => 7,
            GridSize::Size8 => 8,
            GridSize::Size9 => 9,
        }
    }

    /// The grid size with side `v`, if there is one.
    pub fn from_repr(v: usize) -> (r: Option<GridSize>)
        ensures
            r is Some <==> 3 <= v <= 9,
            r matches Some(size) ==> size.spec_side() == v,
    {
        if v == 3 {
            Some(GridSize::Size3)
        } else if v == 4 {
            Some(GridSize::Size4)
        } else if v == 5 {
            Some(GridSize::Size5)
        } else if v == 6 {
            Some(GridSize::Size6)
        } else if v == 7 {
            Some(GridSize::Size7)
        } else if v == 8 {
            Some(GridSize::Size8)
        } else if v == 9 {
            Some(GridSize::Size9)
        } else {
            None
        }
    }

    /// Every grid size, from the smallest to the largest.
    pub fn all() -> (sizes: [GridSize; 7])
        ensures
            forall|i: int| 0 <= i < 7 ==> (#[trigger] sizes[i]).spec_side() == i + 3,
    {
        [
            GridSize::Size3,
            GridSize::Size4,
            GridSize::Size5,
            GridSize::Size6,
            GridSize::Size7,
            GridSize::Size8,
            GridSize::Size9,
        ]
    }

    pub fn border(self) -> (r: usize)
        ensures
            r == self.spec_border(),
    {
        (BOARD_SIDE - self.side()) / 2
    }

    pub fn parity(self) -> (r: usize)
        ensures
            r == self.spec_parity(),
    {
        (self.side() + 1) % 2
    }

    /// Whether the cell with row-major index `idx` is read into an export.
    pub fn is_active(self, idx: usize) -> (r: bool)
        ensures
            r == self.active_index(idx as int),
    {
        let border: usize = self.border();
        let even: usize = self.parity();
        let x: usize = idx % BOARD_SIDE;
        let y: usize = idx / BOARD_SIDE;
        x >= border + even && x < BOARD_SIDE - border && y >= border + even && y < BOARD_SIDE
            - border
    }
}

impl Default for GridSize {
    fn default() -> (r: Self)
        ensures
            r == GridSize::Size5,
    {
        GridSize::Size5
    }
}

/// The active square has exactly as many rows and columns as its side says,
/// and lies inside the store.
pub proof fn lemma_square_bounds(size: GridSize)
    ensures
        0 <= size.spec_first(),
        size.spec_end() <= 9,
        size.spec_end() - size.spec_first() == size.spec_side(),
{
}

/// The active cells, counted in row-major order, are numbered without gaps:
/// the `k`-th of them is the one that has exactly `k` active cells before it.
pub proof fn lemma_nth_active(size: GridSize, k: int)
    requires
        0 <= k < size.spec_side() * size.spec_side(),
    ensures
        0 <= size.nth_active(k) < 81,
        size.active_index(size.nth_active(k)),
        size.active_below(size.nth_active(k)) == k,
{
    let s = size.spec_side();
    let row = k / s;
    let col = k % s;
    assert(0 <= row < s && 0 <= col < s && row * s + col == k) by (nonlinear_arith)
        requires
            3 <= s <= 9,
            0 <= k < s * s,
            row == k / s,
            col == k % s,
    ;
}

} // verus!
