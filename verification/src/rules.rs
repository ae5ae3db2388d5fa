//! The mathematical model of the Game of Life transition rule.
//!
//! A grid is modelled as a `Seq<Seq<bool>>` of `rows` rows, each of
//! `cols` cells; `true` is a live cell. The rule is the standard one:
//! a cell is alive in the next generation iff it has exactly three
//! live neighbors, or it is alive now and has exactly two. Neighbors
//! are the eight surrounding cells that lie inside
//! `[0, rows) x [0, cols)`: there is no wraparound.

use vstd::prelude::*;

verus! {

/// A well-formed grid has exactly `rows` rows of `cols` cells each.
pub open spec fn grid_wf(g: Seq<Seq<bool>>, rows: int, cols: int) -> bool {
    &&& g.len() == rows
    &&& forall|r: int| 0 <= r < rows ==> (#[trigger] g[r]).len() == cols
}

/// `(r, c)` lies inside a `rows x cols` grid.
pub open spec fn in_bounds(rows: int, cols: int, r: int, c: int) -> bool {
    0 <= r < rows && 0 <= c < cols
}

/// 1 if `(r, c)` is an in-bounds live cell, 0 otherwise. Out-of-bounds
/// coordinates contribute nothing, whatever `r` and `c` are.
pub open spec fn live_contribution(g: Seq<Seq<bool>>, rows: int, cols: int, r: int, c: int) -> int {
    if in_bounds(rows, cols, r, c) && g[r][c] {
        1
    } else {
        0
    }
}

/// The number of live cells among the eight neighbors of `(r, c)`
/// (the Moore neighborhood), counting only cells inside the grid.
pub open spec fn neighbor_count(g: Seq<Seq<bool>>, rows: int, cols: int, r: int, c: int) -> int {
    live_contribution(g, rows, cols, r - 1, c - 1) + live_contribution(g, rows, cols, r - 1, c)
        + live_contribution(g, rows, cols, r - 1, c + 1) + live_contribution(g, rows, cols, r, c - 1)
        + live_contribution(g, rows, cols, r, c + 1) + live_contribution(g, rows, cols, r + 1, c - 1)
        + live_contribution(g, rows, cols, r + 1, c) + live_contribution(g, rows, cols, r + 1, c + 1)
}

/// The state of `(r, c)` in the next generation: birth on exactly
/// three live neighbors, survival on two or three, death otherwise.
pub open spec fn next_cell(g: Seq<Seq<bool>>, rows: int, cols: int, r: int, c: int) -> bool {
    ||| neighbor_count(g, rows, cols, r, c) == 3
    ||| (g[r][c] && neighbor_count(g, rows, cols, r, c) == 2)
}

/// `post` is the generation that follows `pre`: every in-bounds cell
/// of `post` is the transition rule applied to `pre` at that cell.
pub open spec fn is_step(pre: Seq<Seq<bool>>, post: Seq<Seq<bool>>, rows: int, cols: int) -> bool {
    &&& grid_wf(post, rows, cols)
    &&& forall|r: int, c: int|
        in_bounds(rows, cols, r, c) ==> #[trigger] post[r][c] == next_cell(pre, rows, cols, r, c)
}

/// Every in-bounds cell of `g` is dead.
pub open spec fn all_dead(g: Seq<Seq<bool>>, rows: int, cols: int) -> bool {
    forall|r: int, c: int| in_bounds(rows, cols, r, c) ==> !(#[trigger] g[r][c])
}

/// `(r, c)` occurs in the coordinate list `p`.
pub open spec fn pattern_contains(p: Seq<(usize, usize)>, r: int, c: int) -> bool {
    exists|k: int|
        0 <= k < p.len() && (#[trigger] p[k]).0 as int == r && p[k].1 as int == c
}

/// Every coordinate of `p` lies inside a `rows x cols` grid.
pub open spec fn pattern_in_bounds(p: Seq<(usize, usize)>, rows: int, cols: int) -> bool {
    forall|k: int|
        0 <= k < p.len() ==> in_bounds(rows, cols, (#[trigger] p[k]).0 as int, p[k].1 as int)
}

/// No spontaneous generation: one step applied to an all-dead grid
/// yields an all-dead grid.
pub proof fn lemma_step_of_all_dead(pre: Seq<Seq<bool>>, post: Seq<Seq<bool>>, rows: int, cols: int)
    requires
        all_dead(pre, rows, cols),
        is_step(pre, post, rows, cols),
    ensures
        all_dead(post, rows, cols),
{
    assert forall|r: int, c: int| in_bounds(rows, cols, r, c) implies !(#[trigger] post[r][c]) by {
        assert(neighbor_count(pre, rows, cols, r, c) == 0);
    }
}

/// A live cell with zero or one live neighbor dies, with two or three
/// survives, and with four or more dies.
pub proof fn lemma_live_cell_rule(g: Seq<Seq<bool>>, rows: int, cols: int, r: int, c: int)
    requires
        in_bounds(rows, cols, r, c),
        g[r][c],
    ensures
        neighbor_count(g, rows, cols, r, c) <= 1 ==> !next_cell(g, rows, cols, r, c),
        neighbor_count(g, rows, cols, r, c) == 2 ==> next_cell(g, rows, cols, r, c),
        neighbor_count(g, rows, cols, r, c) == 3 ==> next_cell(g, rows, cols, r, c),
        neighbor_count(g, rows, cols, r, c) >= 4 ==> !next_cell(g, rows, cols, r, c),
{
}

/// A dead cell with exactly three live neighbors becomes alive; with
/// any other neighbor count it stays dead.
pub proof fn lemma_dead_cell_rule(g: Seq<Seq<bool>>, rows: int, cols: int, r: int, c: int)
    requires
        in_bounds(rows, cols, r, c),
        !g[r][c],
    ensures
        neighbor_count(g, rows, cols, r, c) == 3 ==> next_cell(g, rows, cols, r, c),
        neighbor_count(g, rows, cols, r, c) != 3 ==> !next_cell(g, rows, cols, r, c),
{
}

/// The rule reads nothing outside the grid: two grids that agree on
/// every in-bounds cell give every cell the same neighbor count and
/// the same next state, so off-grid coordinates never count as
/// neighbors (no wraparound).
pub proof fn lemma_rule_reads_only_in_bounds(
    g1: Seq<Seq<bool>>,
    g2: Seq<Seq<bool>>,
    rows: int,
    cols: int,
    r: int,
    c: int,
)
    requires
        forall|i: int, j: int| in_bounds(rows, cols, i, j) ==> #[trigger] g1[i][j] == g2[i][j],
        in_bounds(rows, cols, r, c),
    ensures
        neighbor_count(g1, rows, cols, r, c) == neighbor_count(g2, rows, cols, r, c),
        next_cell(g1, rows, cols, r, c) == next_cell(g2, rows, cols, r, c),
{
    lemma_contribution_in_bounds_only(g1, g2, rows, cols, r - 1, c - 1);
    lemma_contribution_in_bounds_only(g1, g2, rows, cols, r - 1, c);
    lemma_contribution_in_bounds_only(g1, g2, rows, cols, r - 1, c + 1);
    lemma_contribution_in_bounds_only(g1, g2, rows, cols, r, c - 1);
    lemma_contribution_in_bounds_only(g1, g2, rows, cols, r, c + 1);
    lemma_contribution_in_bounds_only(g1, g2, rows, cols, r + 1, c - 1);
    lemma_contribution_in_bounds_only(g1, g2, rows, cols, r + 1, c);
    lemma_contribution_in_bounds_only(g1, g2, rows, cols, r + 1, c + 1);
    assert(g1[r][c] == g2[r][c]);
}

proof fn lemma_contribution_in_bounds_only(
    g1: Seq<Seq<bool>>,
    g2: Seq<Seq<bool>>,
    rows: int,
    cols: int,
    r: int,
    c: int,
)
    requires
        forall|i: int, j: int| in_bounds(rows, cols, i, j) ==> #[trigger] g1[i][j] == g2[i][j],
    ensures
        live_contribution(g1, rows, cols, r, c) == live_contribution(g2, rows, cols, r, c),
{
    if in_bounds(rows, cols, r, c) {
        assert(g1[r][c] == g2[r][c]);
    }
}

/// Extending a coordinate list by one element extends what it
/// contains by exactly that coordinate.
pub proof fn lemma_pattern_take_succ(p: Seq<(usize, usize)>, k: int, r: int, c: int)
    requires
        0 <= k < p.len(),
    ensures
        pattern_contains(p.take(k + 1), r, c) <==> (pattern_contains(p.take(k), r, c) || (
        p[k].0 as int == r && p[k].1 as int == c)),
{
    let pre = p.take(k);
    let ext = p.take(k + 1);
    if pattern_contains(ext, r, c) {
        let i = choose|i: int|
            0 <= i < ext.len() && (#[trigger] ext[i]).0 as int == r && ext[i].1 as int == c;
        if i < k {
            assert(pre[i] == p[i]);
            assert(pattern_contains(pre, r, c));
        } else {
            assert(ext[k] == p[k]);
        }
    }
    if pattern_contains(pre, r, c) {
        let i = choose|i: int|
            0 <= i < pre.len() && (#[trigger] pre[i]).0 as int == r && pre[i].1 as int == c;
        assert(ext[i] == p[i]);
        assert(pattern_contains(ext, r, c));
    }
    if p[k].0 as int == r && p[k].1 as int == c {
        assert(ext[k] == p[k]);
        assert(pattern_contains(ext, r, c));
    }
}

/// Seeding an all-dead grid leaves exactly the listed coordinates
/// alive: the marked cells and no others.
pub proof fn lemma_seed_exact(
    pre: Seq<Seq<bool>>,
    post: Seq<Seq<bool>>,
    p: Seq<(usize, usize)>,
    rows: int,
    cols: int,
)
    requires
        all_dead(pre, rows, cols),
        forall|r: int, c: int|
            in_bounds(rows, cols, r, c) ==> #[trigger] post[r][c] == (pre[r][c]
                || pattern_contains(p, r, c)),
    ensures
        forall|r: int, c: int|
            in_bounds(rows, cols, r, c) ==> #[trigger] post[r][c] == pattern_contains(p, r, c),
{
}

} // verus!
