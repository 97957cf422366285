use vstd::prelude::*;

use crate::game::Grid;

verus! {

/// Some entry of `offsets` is `(dx, dy)`.
pub open spec fn covers(offsets: Seq<(usize, usize)>, dx: int, dy: int) -> bool {
    exists|k: int| 0 <= k < offsets.len() && #[trigger] offsets[k].0 == dx && offsets[k].1 == dy
}

/// `after` is `before` with every in-bounds cell `(x + dx, y + dy)`, for `(dx, dy)` in
/// `offsets`, made alive, and nothing else changed.
pub open spec fn stamped(before: Grid, after: Grid, offsets: Seq<(usize, usize)>, x: int, y: int) -> bool {
    &&& after.wf()
    &&& after.width == before.width
    &&& after.height == before.height
    &&& forall|a: int, b: int| #[trigger] after.alive(a, b)
        == (before.alive(a, b) || (before.in_bounds(a, b) && covers(offsets, a - x, b - y)))
}

pub open spec fn glider_offsets() -> Seq<(usize, usize)> {
    seq![(1, 0), (2, 1), (0, 2), (1, 2), (2, 2)]
}

pub open spec fn blinker_offsets() -> Seq<(usize, usize)> {
    seq![(0, 0), (1, 0), (2, 0)]
}

pub open spec fn toad_offsets() -> Seq<(usize, usize)> {
    seq![(1, 0), (2, 0), (3, 0), (0, 1), (1, 1), (2, 1)]
}

pub open spec fn beacon_offsets() -> Seq<(usize, usize)> {
    seq![(0, 0), (1, 0), (0, 1), (3, 2), (2, 3), (3, 3)]
}

/// Rows 0, 5, 7 and 12 hold columns 2, 3, 4, 8, 9 and 10; rows 2, 3, 4, 8, 9 and 10 hold
/// columns 0, 5, 7 and 12.
pub open spec fn pulsar_offsets() -> Seq<(usize, usize)> {
    seq![
        (2, 0), (3, 0), (4, 0), (8, 0), (9, 0), (10, 0), (0, 2), (5, 2), (7, 2), (12, 2),
        (0, 3), (5, 3), (7, 3), (12, 3), (0, 4), (5, 4), (7, 4), (12, 4), (2, 5), (3, 5),
        (4, 5), (8, 5), (9, 5), (10, 5), (2, 7), (3, 7), (4, 7), (8, 7), (9, 7), (10, 7),
        (0, 8), (5, 8), (7, 8), (12, 8), (0, 9), (5, 9), (7, 9), (12, 9), (0, 10), (5, 10),
        (7, 10), (12, 10), (2, 12), (3, 12), (4, 12), (8, 12), (9, 12), (10, 12),
    ]
}

/// Makes alive the cells `(x + dx, y + dy)` for each `(dx, dy)` of `offsets`; those that fall
/// outside the field are dropped.
fn stamp(grid: &mut Grid, x: usize, y: usize, offsets: &[(usize, usize)])
    requires
        old(grid).wf(),
    ensures
        stamped(*old(grid), *final(grid), offsets@, x as int, y as int),
{
    let ghost start = *grid;
    let mut k: usize = 0;
    while k < offsets.len()
        invariant
            k <= offsets@.len(),
            stamped(start, *grid, offsets@.take(k as int), x as int, y as int),
        decreases offsets@.len() - k,
    {
        let (dx, dy) = offsets[k];
        let ghost before = *grid;
        if dx <= usize::MAX - x && dy <= usize::MAX - y {
            grid.set(x + dx, y + dy, true);
        }
        assert forall|a: int, b: int| #[trigger] grid.alive(a, b)
            == (start.alive(a, b) || (start.in_bounds(a, b)
                && covers(offsets@.take(k + 1), a - x, b - y))) by {
            if covers(offsets@.take(k + 1), a - x, b - y) && !covers(offsets@.take(k as int), a - x, b - y) {
                let j = choose|j: int| 0 <= j < k + 1 && #[trigger] offsets@.take(k + 1)[j].0 == a - x
                    && offsets@.take(k + 1)[j].1 == b - y;
                if j < k {
                    assert(offsets@.take(k as int)[j] == offsets@.take(k + 1)[j]);
                }
            }
            if covers(offsets@.take(k as int), a - x, b - y) {
                let j = choose|j: int| 0 <= j < k && #[trigger] offsets@.take(k as int)[j].0 == a - x
                    && offsets@.take(k as int)[j].1 == b - y;
                assert(offsets@.take(k + 1)[j] == offsets@.take(k as int)[j]);
            }
            if a == x + dx && b == y + dy {
                assert(offsets@.take(k + 1)[k as int] == (dx, dy));
            }
        }
        k = k + 1;
    }
    assert(offsets@.take(offsets@.len() as int) =~= offsets@);
}

/// Places a glider with its top-left corner at `(x, y)`.
pub fn glider(grid: &mut Grid, x: usize, y: usize)
    requires
        old(grid).wf(),
    ensures
        stamped(*old(grid), *final(grid), glider_offsets(), x as int, y as int),
{
    let offsets = [(1usize, 0usize), (2, 1), (0, 2), (1, 2), (2, 2)];
    assert(offsets@ == glider_offsets());
    stamp(grid, x, y, &offsets);
}

/// Places a blinker (three in a row) with its top-left corner at `(x, y)`.
pub fn blinker(grid: &mut Grid, x: usize, y: usize)
    requires
        old(grid).wf(),
    ensures
        stamped(*old(grid), *final(grid), blinker_offsets(), x as int, y as int),
{
    let offsets = [(0usize, 0usize), (1, 0), (2, 0)];
    assert(offsets@ == blinker_offsets());
    stamp(grid, x, y, &offsets);
}

/// Places a toad with its top-left corner at `(x, y)`.
pub fn toad(grid: &mut Grid, x: usize, y: usize)
    requires
        old(grid).wf(),
    ensures
        stamped(*old(grid), *final(grid), toad_offsets(), x as int, y as int),
{
    let offsets = [(1usize, 0usize), (2, 0), (3, 0), (0, 1), (1, 1), (2, 1)];
    assert(offsets@ == toad_offsets());
    stamp(grid, x, y, &offsets);
}

/// Places a beacon with its top-left corner at `(x, y)`.
pub fn beacon(grid: &mut Grid, x: usize, y: usize)
    requires
        old(grid).wf(),
    ensures
        stamped(*old(grid), *final(grid), beacon_offsets(), x as int, y as int),
{
    let offsets = [(0usize, 0usize), (1, 0), (0, 1), (3, 2), (2, 3), (3, 3)];
    assert(offsets@ == beacon_offsets());
    stamp(grid, x, y, &offsets);
}

/// Places a pulsar, which spans 13 by 13 cells, with its top-left corner at `(x, y)`.
pub fn pulsar(grid: &mut Grid, x: usize, y: usize)
    requires
        old(grid).wf(),
    ensures
        stamped(*old(grid), *final(grid), pulsar_offsets(), x as int, y as int),
{
    let offsets = [
        (2usize, 0usize),
        (3, 0), (4, 0), (8, 0), (9, 0), (10, 0), (0, 2), (5, 2), (7, 2), (12, 2), (0, 3),
        (5, 3), (7, 3), (12, 3), (0, 4), (5, 4), (7, 4), (12, 4), (2, 5), (3, 5), (4, 5),
        (8, 5), (9, 5), (10, 5), (2, 7), (3, 7), (4, 7), (8, 7), (9, 7), (10, 7), (0, 8),
        (5, 8), (7, 8), (12, 8), (0, 9), (5, 9), (7, 9), (12, 9), (0, 10), (5, 10), (7, 10),
        (12, 10), (2, 12), (3, 12), (4, 12), (8, 12), (9, 12), (10, 12),
    ];
    assert(offsets@ == pulsar_offsets());
    stamp(grid, x, y, &offsets);
}

} // verus!
