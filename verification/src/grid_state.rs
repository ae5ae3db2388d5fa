//! The cell grid: a fixed `rows x cols` array of boolean cells,
//! seeded once with an initial pattern and then advanced one
//! generation at a time.

use vstd::prelude::*;

use crate::rules::{
    all_dead, grid_wf, in_bounds, is_step, lemma_pattern_take_succ, neighbor_count, next_cell,
    pattern_contains, pattern_in_bounds,
};

verus! {

/// The default cell size, in screen units per cell. The simulation
/// never depends on it; it only informs the renderer's window-size
/// computation.
pub const DEFAULT_CELL_SIZE: u32 = 10;

/// The abstract value of a concrete cell buffer: each row viewed as
/// a sequence of booleans.
pub open spec fn grid_view(cells: Seq<Vec<bool>>) -> Seq<Seq<bool>> {
    cells.map_values(|row: Vec<bool>| row@)
}

/// The abstract grid indexes row by row into the concrete buffer.
pub proof fn lemma_grid_view_rows(cells: Seq<Vec<bool>>)
    ensures
        grid_view(cells).len() == cells.len(),
        forall|i: int| 0 <= i < cells.len() ==> (#[trigger] cells[i])@ == grid_view(cells)[i],
{
}

/// A `rows x cols` grid of boolean cells. Dimensions are fixed at
/// construction; `true` is a live cell.
pub struct GridState {
    rows: usize,
    cols: usize,
    cells: Vec<Vec<bool>>,
}

impl View for GridState {
    type V = Seq<Seq<bool>>;

    closed spec fn view(&self) -> Seq<Seq<bool>> {
        grid_view(self.cells@)
    }
}

impl GridState {
    /// The number of rows, as a mathematical integer.
    pub closed spec fn spec_rows(&self) -> int {
        self.rows as int
    }

    /// The number of columns, as a mathematical integer.
    pub closed spec fn spec_cols(&self) -> int {
        self.cols as int
    }

    /// The cell buffer always matches the stated dimensions.
    pub open spec fn wf(&self) -> bool {
        grid_wf(self@, self.spec_rows(), self.spec_cols())
    }

    /// The number of rows.
    pub fn rows(&self) -> (r: usize)
        ensures
            r as int == self.spec_rows(),
    {
        self.rows
    }

    /// The number of columns.
    pub fn cols(&self) -> (c: usize)
        ensures
            c as int == self.spec_cols(),
    {
        self.cols
    }

    /// Creates an all-dead `rows x cols` grid.
    pub fn new(rows: usize, cols: usize) -> (g: GridState)
        ensures
            g.wf(),
            g.spec_rows() == rows as int,
            g.spec_cols() == cols as int,
            all_dead(g@, rows as int, cols as int),
    {
        let mut cells: Vec<Vec<bool>> = Vec::new();
        let mut r: usize = 0;
        while r < rows
            invariant
                r <= rows,
                cells@.len() == r as int,
                forall|i: int| 0 <= i < r as int ==> (#[trigger] cells@[i])@.len() == cols as int,
                forall|i: int, j: int|
                    0 <= i < r as int && 0 <= j < cols as int ==> !(#[trigger] cells@[i]@[j]),
            decreases rows - r,
        {
            let mut row: Vec<bool> = Vec::new();
            let mut c: usize = 0;
            while c < cols
                invariant
                    c <= cols,
                    row@.len() == c as int,
                    forall|j: int| 0 <= j < c as int ==> !(#[trigger] row@[j]),
                decreases cols - c,
            {
                row.push(false);
                c = c + 1;
            }
            cells.push(row);
            r = r + 1;
        }
        GridState { rows, cols, cells }
    }

    /// The current state of cell `(row, col)`; never mutates.
    pub fn read(&self, row: usize, col: usize) -> (alive: bool)
        requires
            self.wf(),
            (row as int) < self.spec_rows(),
            (col as int) < self.spec_cols(),
        ensures
            alive == self@[row as int][col as int],
    {
        proof {
            lemma_grid_view_rows(self.cells@);
        }
        self.cells[row][col]
    }

    /// Advances the grid by one generation. The next generation is
    /// computed in full from a snapshot of the current one and then
    /// replaces it, so no partial generation is ever observable.
    pub fn step(&mut self)
        requires
            old(self).wf(),
        ensures
            final(self).wf(),
            final(self).spec_rows() == old(self).spec_rows(),
            final(self).spec_cols() == old(self).spec_cols(),
            is_step(old(self)@, final(self)@, old(self).spec_rows(), old(self).spec_cols()),
    {
        let next = next_grid(&self.cells, self.rows, self.cols);
        self.cells = next;
    }

    /// Marks every listed coordinate alive, leaving all other cells
    /// as they were. A pattern with any out-of-bounds coordinate is
    /// rejected whole: nothing is written and `false` comes back.
    pub fn seed(&mut self, pattern: &Vec<(usize, usize)>) -> (ok: bool)
        requires
            old(self).wf(),
        ensures
            final(self).wf(),
            final(self).spec_rows() == old(self).spec_rows(),
            final(self).spec_cols() == old(self).spec_cols(),
            ok == pattern_in_bounds(pattern@, old(self).spec_rows(), old(self).spec_cols()),
            ok ==> forall|r: int, c: int|
                in_bounds(old(self).spec_rows(), old(self).spec_cols(), r, c)
                    ==> #[trigger] final(self)@[r][c] == (old(self)@[r][c] || pattern_contains(
                    pattern@,
                    r,
                    c,
                )),
            !ok ==> final(self)@ == old(self)@,
    {
        if !pattern_fits(pattern, self.rows, self.cols) {
            return false;
        }
        apply_pattern(&mut self.cells, pattern, self.rows, self.cols);
        true
    }
}

/// Counts the live cells among the eight neighbors of `(row, col)`,
/// skipping coordinates that fall outside the grid.
fn count_live_neighbors(cells: &Vec<Vec<bool>>, row: usize, col: usize, rows: usize, cols: usize) -> (n:
    u8)
    requires
        grid_wf(grid_view(cells@), rows as int, cols as int),
        (row as int) < rows as int,
        (col as int) < cols as int,
    ensures
        n as int == neighbor_count(grid_view(cells@), rows as int, cols as int, row as int, col as int),
{
    proof {
        lemma_grid_view_rows(cells@);
    }
    let mut n: u8 = 0;
    if row > 0 {
        if col > 0 && cells[row - 1][col - 1] {
            n = n + 1;
        }
        if cells[row - 1][col] {
            n = n + 1;
        }
        if col + 1 < cols && cells[row - 1][col + 1] {
            n = n + 1;
        }
    }
    if col > 0 && cells[row][col - 1] {
        n = n + 1;
    }
    if col + 1 < cols && cells[row][col + 1] {
        n = n + 1;
    }
    if row + 1 < rows {
        if col > 0 && cells[row + 1][col - 1] {
            n = n + 1;
        }
        if cells[row + 1][col] {
            n = n + 1;
        }
        if col + 1 < cols && cells[row + 1][col + 1] {
            n = n + 1;
        }
    }
    n
}

/// The next state of cell `(row, col)`: alive iff it has exactly
/// three live neighbors, or is alive now with exactly two.
pub fn pixel(cells: &Vec<Vec<bool>>, row: usize, col: usize, rows: usize, cols: usize) -> (alive:
    bool)
    requires
        grid_wf(grid_view(cells@), rows as int, cols as int),
        (row as int) < rows as int,
        (col as int) < cols as int,
    ensures
        alive == next_cell(grid_view(cells@), rows as int, cols as int, row as int, col as int),
{
    proof {
        lemma_grid_view_rows(cells@);
    }
    let n = count_live_neighbors(cells, row, col, rows, cols);
    n == 3 || (cells[row][col] && n == 2)
}

/// Computes the generation that follows `cells`, into a fresh buffer;
/// `cells` itself is read only.
pub fn next_grid(cells: &Vec<Vec<bool>>, rows: usize, cols: usize) -> (next: Vec<Vec<bool>>)
    requires
        grid_wf(grid_view(cells@), rows as int, cols as int),
    ensures
        is_step(grid_view(cells@), grid_view(next@), rows as int, cols as int),
{
    let mut next: Vec<Vec<bool>> = Vec::new();
    let mut r: usize = 0;
    while r < rows
        invariant
            grid_wf(grid_view(cells@), rows as int, cols as int),
            r <= rows,
            next@.len() == r as int,
            forall|i: int| 0 <= i < r as int ==> (#[trigger] next@[i])@.len() == cols as int,
            forall|i: int, j: int|
                0 <= i < r as int && 0 <= j < cols as int ==> (#[trigger] next@[i]@[j]) == next_cell(
                    grid_view(cells@),
                    rows as int,
                    cols as int,
                    i,
                    j,
                ),
        decreases rows - r,
    {
        let mut row: Vec<bool> = Vec::new();
        let mut c: usize = 0;
        while c < cols
            invariant
                grid_wf(grid_view(cells@), rows as int, cols as int),
                r < rows,
                c <= cols,
                row@.len() == c as int,
                forall|j: int|
                    0 <= j < c as int ==> (#[trigger] row@[j]) == next_cell(
                        grid_view(cells@),
                        rows as int,
                        cols as int,
                        r as int,
                        j,
                    ),
            decreases cols - c,
        {
            let alive = pixel(cells, r, c, rows, cols);
            row.push(alive);
            c = c + 1;
        }
        next.push(row);
        r = r + 1;
    }
    proof {
        lemma_grid_view_rows(next@);
        assert forall|i: int, j: int| in_bounds(rows as int, cols as int, i, j) implies #[trigger] grid_view(
            next@,
        )[i][j] == next_cell(grid_view(cells@), rows as int, cols as int, i, j) by {
            assert(next@[i]@[j] == next_cell(grid_view(cells@), rows as int, cols as int, i, j));
        }
    }
    next
}

/// Marks cell `(r, c)` alive, leaving every other cell unchanged.
fn set_alive(cells: &mut Vec<Vec<bool>>, r: usize, c: usize, rows: usize, cols: usize)
    requires
        grid_wf(grid_view(old(cells)@), rows as int, cols as int),
        (r as int) < rows as int,
        (c as int) < cols as int,
    ensures
        grid_wf(grid_view(final(cells)@), rows as int, cols as int),
        forall|i: int, j: int|
            in_bounds(rows as int, cols as int, i, j) ==> #[trigger] grid_view(final(cells)@)[i][j]
                == (if i == r as int && j == c as int {
                true
            } else {
                grid_view(old(cells)@)[i][j]
            }),
{
    proof {
        lemma_grid_view_rows(cells@);
    }
    cells[r][c] = true;
    proof {
        lemma_grid_view_rows(cells@);
    }
}

/// Checks that every coordinate of `pattern` lies inside a
/// `rows x cols` grid.
fn pattern_fits(pattern: &Vec<(usize, usize)>, rows: usize, cols: usize) -> (ok: bool)
    ensures
        ok == pattern_in_bounds(pattern@, rows as int, cols as int),
{
    let mut k: usize = 0;
    while k < pattern.len()
        invariant
            k <= pattern@.len(),
            forall|i: int|
                0 <= i < k as int ==> in_bounds(
                    rows as int,
                    cols as int,
                    (#[trigger] pattern@[i]).0 as int,
                    pattern@[i].1 as int,
                ),
        decreases pattern@.len() - k,
    {
        let pr = pattern[k].0;
        let pc = pattern[k].1;
        if !(pr < rows && pc < cols) {
            return false;
        }
        k = k + 1;
    }
    true
}

/// Sets every coordinate of an in-bounds `pattern` alive, one cell
/// at a time; all other cells keep their value.
fn apply_pattern(cells: &mut Vec<Vec<bool>>, pattern: &Vec<(usize, usize)>, rows: usize, cols: usize)
    requires
        grid_wf(grid_view(old(cells)@), rows as int, cols as int),
        pattern_in_bounds(pattern@, rows as int, cols as int),
    ensures
        grid_wf(grid_view(final(cells)@), rows as int, cols as int),
        forall|r: int, c: int|
            in_bounds(rows as int, cols as int, r, c) ==> #[trigger] grid_view(final(cells)@)[r][c]
                == (grid_view(old(cells)@)[r][c] || pattern_contains(pattern@, r, c)),
{
    let mut k: usize = 0;
    while k < pattern.len()
        invariant
            grid_wf(grid_view(cells@), rows as int, cols as int),
            pattern_in_bounds(pattern@, rows as int, cols as int),
            k <= pattern@.len(),
            forall|r: int, c: int|
                in_bounds(rows as int, cols as int, r, c) ==> #[trigger] grid_view(cells@)[r][c] == (
                grid_view(old(cells)@)[r][c] || pattern_contains(pattern@.take(k as int), r, c)),
        decreases pattern@.len() - k,
    {
        let pr = pattern[k].0;
        let pc = pattern[k].1;
        proof {
            assert(in_bounds(
                rows as int,
                cols as int,
                pattern@[k as int].0 as int,
                pattern@[k as int].1 as int,
            ));
        }
        set_alive(cells, pr, pc, rows, cols);
        proof {
            assert forall|r: int, c: int| in_bounds(rows as int, cols as int, r, c) implies #[trigger] grid_view(
                cells@,
            )[r][c] == (grid_view(old(cells)@)[r][c] || pattern_contains(
                pattern@.take(k as int + 1),
                r,
                c,
            )) by {
                lemma_pattern_take_succ(pattern@, k as int, r, c);
            }
        }
        k = k + 1;
    }
    proof {
        assert(pattern@.take(pattern@.len() as int) =~= pattern@);
    }
}

/// The configured initial pattern, cell by cell: two offset rows of
/// three live cells each, on rows 10 and 11.
pub open spec fn default_seed_contains(r: int, c: int) -> bool {
    ||| (r == 10 && (c == 11 || c == 12 || c == 13))
    ||| (r == 11 && (c == 10 || c == 11 || c == 12))
}

/// The configured initial pattern as a coordinate list, ready to be
/// handed to `seed`.
pub fn default_pattern() -> (p: Vec<(usize, usize)>)
    ensures
        p@.len() == 6,
        forall|r: int, c: int|
            #[trigger] pattern_contains(p@, r, c) <==> default_seed_contains(r, c),
{
    let mut p: Vec<(usize, usize)> = Vec::new();
    p.push((10, 11));
    p.push((10, 12));
    p.push((10, 13));
    p.push((11, 10));
    p.push((11, 11));
    p.push((11, 12));
    proof {
        assert forall|r: int, c: int|
            #[trigger] pattern_contains(p@, r, c) <==> default_seed_contains(r, c) by {
            if pattern_contains(p@, r, c) {
                let k = choose|k: int|
                    0 <= k < p@.len() && (#[trigger] p@[k]).0 as int == r && p@[k].1 as int == c;
                assert(default_seed_contains(r, c));
            }
            if default_seed_contains(r, c) {
                if r == 10 && c == 11 {
                    assert(p@[0] == (10usize, 11usize));
                    assert(pattern_contains(p@, r, c));
                } else if r == 10 && c == 12 {
                    assert(p@[1] == (10usize, 12usize));
                    assert(pattern_contains(p@, r, c));
                } else if r == 10 && c == 13 {
                    assert(p@[2] == (10usize, 13usize));
                    assert(pattern_contains(p@, r, c));
                } else if r == 11 && c == 10 {
                    assert(p@[3] == (11usize, 10usize));
                    assert(pattern_contains(p@, r, c));
                } else if r == 11 && c == 11 {
                    assert(p@[4] == (11usize, 11usize));
                    assert(pattern_contains(p@, r, c));
                } else {
                    assert(p@[5] == (11usize, 12usize));
                    assert(pattern_contains(p@, r, c));
                }
            }
        }
    }
    p
}

/// Writes the configured initial pattern into a raw cell buffer, when
/// the buffer is large enough to hold it; a buffer too small for the
/// pattern is left unchanged.
pub fn grid(grid: &mut Vec<Vec<bool>>, rows: usize, cols: usize)
    requires
        grid_wf(grid_view(old(grid)@), rows as int, cols as int),
    ensures
        grid_wf(grid_view(final(grid)@), rows as int, cols as int),
        11 < rows && 13 < cols ==> forall|r: int, c: int|
            in_bounds(rows as int, cols as int, r, c) ==> #[trigger] grid_view(final(grid)@)[r][c]
                == (grid_view(old(grid)@)[r][c] || default_seed_contains(r, c)),
        !(11 < rows && 13 < cols) ==> final(grid)@ == old(grid)@,
{
    let start_row: usize = 10;
    let start_col: usize = 10;
    if start_row + 1 < rows && start_col + 3 < cols {
        let p = default_pattern();
        proof {
            assert forall|k: int| 0 <= k < p@.len() implies in_bounds(
                rows as int,
                cols as int,
                (#[trigger] p@[k]).0 as int,
                p@[k].1 as int,
            ) by {
                assert(pattern_contains(p@, p@[k].0 as int, p@[k].1 as int));
            }
        }
        apply_pattern(grid, &p, rows, cols);
    }
}

} // verus!
