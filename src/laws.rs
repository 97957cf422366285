use vstd::prelude::*;
use vstd::std_specs::cmp::PartialEqSpec;

use crate::game::Grid;
use crate::patterns::{blinker_offsets, covers, glider_offsets, pulsar_offsets, stamped};

verus! {

/// No cell of the grid is alive.
pub open spec fn is_blank(g: Grid) -> bool {
    forall|a: int, b: int| !#[trigger] g.alive(a, b)
}

/// Two well-formed grids of one size that agree on every cell are equal.
pub proof fn lemma_equal_when_cells_agree(g: Grid, h: Grid)
    requires
        g.wf(),
        h.wf(),
        g.width == h.width,
        g.height == h.height,
        forall|a: int, b: int| #[trigger] g.alive(a, b) == h.alive(a, b),
    ensures
        g.eq_spec(&h),
{
    assert forall|r: int| 0 <= r < g.cells@.len() implies (#[trigger] g.cells@[r])@ == h.cells@[r]@ by {
        assert forall|c: int| 0 <= c < g.width implies g.cells@[r]@[c] == h.cells@[r]@[c] by {
            assert(g.alive(c, r) == h.alive(c, r));
        }
        assert(g.cells@[r]@ =~= h.cells@[r]@);
    }
}

/// The next generation is a function of the current one: two grids that both follow `g`
/// are equal.
pub proof fn lemma_next_generation_is_unique(g: Grid, n1: Grid, n2: Grid)
    requires
        g.wf(),
        g.steps_to(n1),
        g.steps_to(n2),
    ensures
        n1.eq_spec(&n2),
{
    assert forall|a: int, b: int| #[trigger] n1.alive(a, b) == n2.alive(a, b) by {
        assert(n1.alive(a, b) == (g.in_bounds(a, b) && crate::game::survives(g.alive(a, b), g.neighbors(a, b))));
        assert(n2.alive(a, b) == (g.in_bounds(a, b) && crate::game::survives(g.alive(a, b), g.neighbors(a, b))));
    }
    lemma_equal_when_cells_agree(n1, n2);
}

/// Every position outside the field reads as dead.
pub proof fn lemma_outside_is_dead(g: Grid, x: int, y: int)
    requires
        x < 0 || y < 0 || x >= g.width || y >= g.height,
    ensures
        !g.alive(x, y),
{
}

/// The corner `(0, 0)` has at most three neighbours inside the field; the others count as
/// dead.
pub proof fn lemma_corner_neighbors(g: Grid)
    ensures
        g.neighbors(0, 0) == g.live(1, 0) + g.live(0, 1) + g.live(1, 1),
        g.neighbors(0, 0) <= 3,
{
}

/// The all-dead grid is its own next generation.
pub proof fn lemma_blank_is_stable(g: Grid, n: Grid)
    requires
        g.wf(),
        is_blank(g),
        g.steps_to(n),
    ensures
        n.eq_spec(&g),
{
    assert forall|a: int, b: int| #[trigger] n.alive(a, b) == g.alive(a, b) by {
        assert(!g.alive(a - 1, b - 1) && !g.alive(a, b - 1) && !g.alive(a + 1, b - 1));
        assert(!g.alive(a - 1, b) && !g.alive(a, b) && !g.alive(a + 1, b));
        assert(!g.alive(a - 1, b + 1) && !g.alive(a, b + 1) && !g.alive(a + 1, b + 1));
    }
    lemma_equal_when_cells_agree(n, g);
}

spec fn glider_phase0(dx: int, dy: int) -> bool {
    (dx == 1 && dy == 0)
        || (dx == 2 && dy == 1)
        || (dx == 0 && dy == 2)
        || (dx == 1 && dy == 2)
        || (dx == 2 && dy == 2)
}

spec fn glider_phase1(dx: int, dy: int) -> bool {
    (dx == 0 && dy == 1)
        || (dx == 1 && dy == 2)
        || (dx == 1 && dy == 3)
        || (dx == 2 && dy == 1)
        || (dx == 2 && dy == 2)
}

spec fn glider_phase2(dx: int, dy: int) -> bool {
    (dx == 0 && dy == 2)
        || (dx == 1 && dy == 3)
        || (dx == 2 && dy == 1)
        || (dx == 2 && dy == 2)
        || (dx == 2 && dy == 3)
}

spec fn glider_phase3(dx: int, dy: int) -> bool {
    (dx == 1 && dy == 1)
        || (dx == 1 && dy == 3)
        || (dx == 2 && dy == 2)
        || (dx == 2 && dy == 3)
        || (dx == 3 && dy == 2)
}

spec fn glider_phase4(dx: int, dy: int) -> bool {
    (dx == 1 && dy == 3)
        || (dx == 2 && dy == 1)
        || (dx == 2 && dy == 3)
        || (dx == 3 && dy == 2)
        || (dx == 3 && dy == 3)
}

spec fn blinker_flat(dx: int, dy: int) -> bool {
    dy == 0 && 0 <= dx <= 2
}

spec fn blinker_upright(dx: int, dy: int) -> bool {
    dx == 1 && -1 <= dy <= 1
}

/// 1 where `shape` holds at `(dx, dy)`, else 0.
spec fn shape_live(shape: spec_fn(int, int) -> bool, dx: int, dy: int) -> int {
    if shape(dx, dy) { 1 } else { 0 }
}

/// The eight neighbours of `(dx, dy)` that lie in `shape`.
spec fn shape_neighbors(shape: spec_fn(int, int) -> bool, dx: int, dy: int) -> int {
    shape_live(shape, dx - 1, dy - 1) + shape_live(shape, dx, dy - 1) + shape_live(shape, dx + 1, dy - 1)
        + shape_live(shape, dx - 1, dy) + shape_live(shape, dx + 1, dy)
        + shape_live(shape, dx - 1, dy + 1) + shape_live(shape, dx, dy + 1)
        + shape_live(shape, dx + 1, dy + 1)
}

/// Where the live cells of `g` are exactly `shape` placed at `(x, y)`, the cell `(a, b)` and
/// its neighbours are read off the shape.
proof fn lemma_shape_neighbors(g: Grid, shape: spec_fn(int, int) -> bool, x: int, y: int, a: int, b: int)
    requires
        forall|a: int, b: int| #[trigger] g.alive(a, b) == shape(a - x, b - y),
    ensures
        g.alive(a, b) == shape(a - x, b - y),
        g.neighbors(a, b) == shape_neighbors(shape, a - x, b - y),
{
    assert(g.alive(a - 1, b - 1) == shape(a - 1 - x, b - 1 - y));
    assert(g.alive(a, b - 1) == shape(a - x, b - 1 - y));
    assert(g.alive(a + 1, b - 1) == shape(a + 1 - x, b - 1 - y));
    assert(g.alive(a - 1, b) == shape(a - 1 - x, b - y));
    assert(g.alive(a + 1, b) == shape(a + 1 - x, b - y));
    assert(g.alive(a - 1, b + 1) == shape(a - 1 - x, b + 1 - y));
    assert(g.alive(a, b + 1) == shape(a - x, b + 1 - y));
    assert(g.alive(a + 1, b + 1) == shape(a + 1 - x, b + 1 - y));
}

proof fn lemma_glider_offsets(dx: int, dy: int)
    ensures
        covers(glider_offsets(), dx, dy) == glider_phase0(dx, dy),
{
    let s = glider_offsets();
    assert(s[0].0 == 1 && s[0].1 == 0);
    assert(s[1].0 == 2 && s[1].1 == 1);
    assert(s[2].0 == 0 && s[2].1 == 2);
    assert(s[3].0 == 1 && s[3].1 == 2);
    assert(s[4].0 == 2 && s[4].1 == 2);
}

proof fn lemma_blinker_offsets(dx: int, dy: int)
    ensures
        covers(blinker_offsets(), dx, dy) == blinker_flat(dx, dy),
{
    let s = blinker_offsets();
    assert(s[0].0 == 0 && s[0].1 == 0);
    assert(s[1].0 == 1 && s[1].1 == 0);
    assert(s[2].0 == 2 && s[2].1 == 0);
}

/// A blinker seeded on an all-dead grid, with room around it, is back where it started
/// after two generations.
pub proof fn lemma_blinker_period(blank: Grid, g0: Grid, g1: Grid, g2: Grid, x: int, y: int)
    requires
        blank.wf(),
        is_blank(blank),
        0 <= x,
        1 <= y,
        x + 2 < blank.width,
        y + 1 < blank.height,
        stamped(blank, g0, blinker_offsets(), x, y),
        g0.steps_to(g1),
        g1.steps_to(g2),
    ensures
        g2.eq_spec(&g0),
{
    assert forall|a: int, b: int| #[trigger] g0.alive(a, b) == blinker_flat(a - x, b - y) by {
        lemma_blinker_offsets(a - x, b - y);
    }
    assert forall|a: int, b: int| #[trigger] g1.alive(a, b) == blinker_upright(a - x, b - y) by {
        lemma_shape_neighbors(g0, |dx: int, dy: int| blinker_flat(dx, dy), x, y, a, b);
    }
    assert forall|a: int, b: int| #[trigger] g2.alive(a, b) == g0.alive(a, b) by {
        lemma_shape_neighbors(g1, |dx: int, dy: int| blinker_upright(dx, dy), x, y, a, b);
    }
    lemma_equal_when_cells_agree(g2, g0);
}

/// A glider seeded on an all-dead grid, with room for it to move, is after four generations
/// the same glider moved one cell right and one cell down.
pub proof fn lemma_glider_period(
    blank: Grid,
    g0: Grid,
    g1: Grid,
    g2: Grid,
    g3: Grid,
    g4: Grid,
    x: int,
    y: int,
)
    requires
        blank.wf(),
        is_blank(blank),
        0 <= x,
        0 <= y,
        x + 3 < blank.width,
        y + 3 < blank.height,
        stamped(blank, g0, glider_offsets(), x, y),
        g0.steps_to(g1),
        g1.steps_to(g2),
        g2.steps_to(g3),
        g3.steps_to(g4),
    ensures
        stamped(blank, g4, glider_offsets(), x + 1, y + 1),
{
    assert forall|a: int, b: int| #[trigger] g0.alive(a, b) == glider_phase0(a - x, b - y) by {
        lemma_glider_offsets(a - x, b - y);
    }
    assert forall|a: int, b: int| #[trigger] g1.alive(a, b) == glider_phase1(a - x, b - y) by {
        lemma_shape_neighbors(g0, |dx: int, dy: int| glider_phase0(dx, dy), x, y, a, b);
    }
    assert forall|a: int, b: int| #[trigger] g2.alive(a, b) == glider_phase2(a - x, b - y) by {
        lemma_shape_neighbors(g1, |dx: int, dy: int| glider_phase1(dx, dy), x, y, a, b);
    }
    assert forall|a: int, b: int| #[trigger] g3.alive(a, b) == glider_phase3(a - x, b - y) by {
        lemma_shape_neighbors(g2, |dx: int, dy: int| glider_phase2(dx, dy), x, y, a, b);
    }
    assert forall|a: int, b: int| #[trigger] g4.alive(a, b) == glider_phase4(a - x, b - y) by {
        lemma_shape_neighbors(g3, |dx: int, dy: int| glider_phase3(dx, dy), x, y, a, b);
    }
    assert forall|a: int, b: int| #[trigger] g4.alive(a, b)
        == (blank.alive(a, b) || (blank.in_bounds(a, b) && covers(glider_offsets(), a - (x + 1), b - (y + 1)))) by {
        lemma_glider_offsets(a - (x + 1), b - (y + 1));
    }
}

/// Live cells among the columns `[lo, hi)` of row `y`, when all of them are alive or all dead.
proof fn lemma_row_span(g: Grid, y: int, lo: int, hi: int, alive: bool)
    requires
        0 <= lo <= hi,
        forall|a: int| lo <= a < hi ==> #[trigger] g.alive(a, y) == alive,
    ensures
        g.row_population(y, hi) - g.row_population(y, lo) == if alive { hi - lo } else { 0 },
    decreases hi - lo,
{
    if hi > lo {
        lemma_row_span(g, y, lo, hi - 1, alive);
    }
}

/// Rows `[lo, hi)` with no live cell add nothing to the population.
proof fn lemma_blank_rows(g: Grid, lo: int, hi: int)
    requires
        0 <= lo <= hi,
        forall|a: int, b: int| lo <= b < hi ==> !#[trigger] g.alive(a, b),
    ensures
        g.rows_population(hi) == g.rows_population(lo),
    decreases hi - lo,
{
    if hi > lo {
        lemma_blank_rows(g, lo, hi - 1);
        lemma_row_span(g, hi - 1, 0, g.width as int, false);
    }
}

/// Rows (and columns) of the pulsar's long bars.
pub open spec fn pulsar_edge(d: int) -> bool {
    d == 0 || d == 5 || d == 7 || d == 12
}

/// Rows (and columns) that the pulsar's long bars span.
pub open spec fn pulsar_bar(d: int) -> bool {
    d == 2 || d == 3 || d == 4 || d == 8 || d == 9 || d == 10
}

/// The pulsar's table: rows 0, 5, 7 and 12 hold columns 2, 3, 4, 8, 9 and 10, and rows 2, 3,
/// 4, 8, 9 and 10 hold columns 0, 5, 7 and 12.
pub proof fn lemma_pulsar_layout(dx: int, dy: int)
    ensures
        covers(pulsar_offsets(), dx, dy)
            == ((pulsar_edge(dy) && pulsar_bar(dx)) || (pulsar_bar(dy) && pulsar_edge(dx))),
{
    let s = pulsar_offsets();
    assert(s[0].0 == 2 && s[0].1 == 0);
    assert(s[1].0 == 3 && s[1].1 == 0);
    assert(s[2].0 == 4 && s[2].1 == 0);
    assert(s[3].0 == 8 && s[3].1 == 0);
    assert(s[4].0 == 9 && s[4].1 == 0);
    assert(s[5].0 == 10 && s[5].1 == 0);
    assert(s[6].0 == 0 && s[6].1 == 2);
    assert(s[7].0 == 5 && s[7].1 == 2);
    assert(s[8].0 == 7 && s[8].1 == 2);
    assert(s[9].0 == 12 && s[9].1 == 2);
    assert(s[10].0 == 0 && s[10].1 == 3);
    assert(s[11].0 == 5 && s[11].1 == 3);
    assert(s[12].0 == 7 && s[12].1 == 3);
    assert(s[13].0 == 12 && s[13].1 == 3);
    assert(s[14].0 == 0 && s[14].1 == 4);
    assert(s[15].0 == 5 && s[15].1 == 4);
    assert(s[16].0 == 7 && s[16].1 == 4);
    assert(s[17].0 == 12 && s[17].1 == 4);
    assert(s[18].0 == 2 && s[18].1 == 5);
    assert(s[19].0 == 3 && s[19].1 == 5);
    assert(s[20].0 == 4 && s[20].1 == 5);
    assert(s[21].0 == 8 && s[21].1 == 5);
    assert(s[22].0 == 9 && s[22].1 == 5);
    assert(s[23].0 == 10 && s[23].1 == 5);
    assert(s[24].0 == 2 && s[24].1 == 7);
    assert(s[25].0 == 3 && s[25].1 == 7);
    assert(s[26].0 == 4 && s[26].1 == 7);
    assert(s[27].0 == 8 && s[27].1 == 7);
    assert(s[28].0 == 9 && s[28].1 == 7);
    assert(s[29].0 == 10 && s[29].1 == 7);
    assert(s[30].0 == 0 && s[30].1 == 8);
    assert(s[31].0 == 5 && s[31].1 == 8);
    assert(s[32].0 == 7 && s[32].1 == 8);
    assert(s[33].0 == 12 && s[33].1 == 8);
    assert(s[34].0 == 0 && s[34].1 == 9);
    assert(s[35].0 == 5 && s[35].1 == 9);
    assert(s[36].0 == 7 && s[36].1 == 9);
    assert(s[37].0 == 12 && s[37].1 == 9);
    assert(s[38].0 == 0 && s[38].1 == 10);
    assert(s[39].0 == 5 && s[39].1 == 10);
    assert(s[40].0 == 7 && s[40].1 == 10);
    assert(s[41].0 == 12 && s[41].1 == 10);
    assert(s[42].0 == 2 && s[42].1 == 12);
    assert(s[43].0 == 3 && s[43].1 == 12);
    assert(s[44].0 == 4 && s[44].1 == 12);
    assert(s[45].0 == 8 && s[45].1 == 12);
    assert(s[46].0 == 9 && s[46].1 == 12);
    assert(s[47].0 == 10 && s[47].1 == 12);
}

spec fn pulsar_shape(dx: int, dy: int) -> bool {
    (pulsar_edge(dy) && pulsar_bar(dx)) || (pulsar_bar(dy) && pulsar_edge(dx))
}

/// A blinker seeded on an all-dead grid, where it fits, has three live cells.
pub proof fn lemma_blinker_population(blank: Grid, g: Grid, x: int, y: int)
    requires
        blank.wf(),
        is_blank(blank),
        0 <= x,
        0 <= y,
        x + 2 < blank.width,
        y + 0 < blank.height,
        stamped(blank, g, blinker_offsets(), x, y),
    ensures
        g.population() == 3,
{
    assert forall|a: int, b: int| #[trigger] g.alive(a, b) == blinker_flat(a - x, b - y) by {
        lemma_blinker_offsets(a - x, b - y);
    }
    lemma_blank_rows(g, 0, y);
    assert(g.rows_population(0) == 0);
    lemma_row_span(g, y, 0, x, false);
    lemma_row_span(g, y, x, x + 3, true);
    lemma_row_span(g, y, x + 3, g.width as int, false);
    assert(g.rows_population(y + 1) == 3);
    lemma_blank_rows(g, y + 1, g.height as int);
}

/// A glider seeded on an all-dead grid, where it fits, has five live cells.
pub proof fn lemma_glider_population(blank: Grid, g: Grid, x: int, y: int)
    requires
        blank.wf(),
        is_blank(blank),
        0 <= x,
        0 <= y,
        x + 2 < blank.width,
        y + 2 < blank.height,
        stamped(blank, g, glider_offsets(), x, y),
    ensures
        g.population() == 5,
{
    assert forall|a: int, b: int| #[trigger] g.alive(a, b) == glider_phase0(a - x, b - y) by {
        lemma_glider_offsets(a - x, b - y);
    }
    lemma_blank_rows(g, 0, y);
    assert(g.rows_population(0) == 0);
    lemma_row_span(g, y, 0, x + 1, false);
    lemma_row_span(g, y, x + 1, x + 2, true);
    lemma_row_span(g, y, x + 2, g.width as int, false);
    assert(g.rows_population(y + 1) == 1);
    lemma_row_span(g, y + 1, 0, x + 2, false);
    lemma_row_span(g, y + 1, x + 2, x + 3, true);
    lemma_row_span(g, y + 1, x + 3, g.width as int, false);
    assert(g.rows_population(y + 2) == 2);
    lemma_row_span(g, y + 2, 0, x, false);
    lemma_row_span(g, y + 2, x, x + 3, true);
    lemma_row_span(g, y + 2, x + 3, g.width as int, false);
    assert(g.rows_population(y + 3) == 5);
    lemma_blank_rows(g, y + 3, g.height as int);
}

/// Live cells in row `dy` of a pulsar: six in the rows of its long bars, four in the rows
/// that the bars span, none in the others.
spec fn pulsar_row_count(dy: int) -> int {
    if pulsar_edge(dy) {
        6
    } else if pulsar_bar(dy) {
        4
    } else {
        0
    }
}

/// Live cells in the first `k` rows of a pulsar.
spec fn pulsar_rows_count(k: int) -> int
    decreases k,
{
    if k <= 0 {
        0
    } else {
        pulsar_rows_count(k - 1) + pulsar_row_count(k - 1)
    }
}

/// One row of a pulsar placed at `(x, y)` on an otherwise dead grid, counted across the field.
proof fn lemma_pulsar_row(g: Grid, x: int, y: int, dy: int)
    requires
        forall|a: int, b: int| #[trigger] g.alive(a, b) == pulsar_shape(a - x, b - y),
        0 <= x,
        x + 12 < g.width,
    ensures
        g.row_population(y + dy, g.width as int) == pulsar_row_count(dy),
{
    let w = g.width as int;
    let r = y + dy;
    if pulsar_edge(dy) {
        lemma_row_span(g, r, 0, x + 2, false);
        lemma_row_span(g, r, x + 2, x + 5, true);
        lemma_row_span(g, r, x + 5, x + 8, false);
        lemma_row_span(g, r, x + 8, x + 11, true);
        lemma_row_span(g, r, x + 11, w, false);
    } else if pulsar_bar(dy) {
        lemma_row_span(g, r, 0, x, false);
        lemma_row_span(g, r, x, x + 1, true);
        lemma_row_span(g, r, x + 1, x + 5, false);
        lemma_row_span(g, r, x + 5, x + 6, true);
        lemma_row_span(g, r, x + 6, x + 7, false);
        lemma_row_span(g, r, x + 7, x + 8, true);
        lemma_row_span(g, r, x + 8, x + 12, false);
        lemma_row_span(g, r, x + 12, x + 13, true);
        lemma_row_span(g, r, x + 13, w, false);
    } else {
        lemma_row_span(g, r, 0, w, false);
    }
}

/// The first `k` rows of a pulsar placed at `(x, y)` on an otherwise dead grid.
proof fn lemma_pulsar_rows(g: Grid, x: int, y: int, k: int)
    requires
        forall|a: int, b: int| #[trigger] g.alive(a, b) == pulsar_shape(a - x, b - y),
        0 <= x,
        0 <= y,
        x + 12 < g.width,
        0 <= k,
    ensures
        g.rows_population(y + k) == pulsar_rows_count(k),
    decreases k,
{
    if k == 0 {
        lemma_blank_rows(g, 0, y);
    } else {
        lemma_pulsar_rows(g, x, y, k - 1);
        lemma_pulsar_row(g, x, y, k - 1);
        assert(g.rows_population(y + k) == g.rows_population(y + k - 1)
            + g.row_population(y + k - 1, g.width as int));
    }
}

/// A pulsar seeded on an all-dead grid, where it fits, has 48 live cells.
pub proof fn lemma_pulsar_population(blank: Grid, g: Grid, x: int, y: int)
    requires
        blank.wf(),
        is_blank(blank),
        0 <= x,
        0 <= y,
        x + 12 < blank.width,
        y + 12 < blank.height,
        stamped(blank, g, pulsar_offsets(), x, y),
    ensures
        g.population() == 48,
{
    assert forall|a: int, b: int| #[trigger] g.alive(a, b) == pulsar_shape(a - x, b - y) by {
        lemma_pulsar_layout(a - x, b - y);
    }
    lemma_pulsar_rows(g, x, y, 13);
    assert(pulsar_rows_count(13) == 48) by {
        reveal_with_fuel(pulsar_rows_count, 14);
    }
    lemma_blank_rows(g, y + 13, g.height as int);
}

} // verus!
