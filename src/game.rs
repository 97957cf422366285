use rand::Rng;
use vstd::prelude::*;
use vstd::std_specs::cmp::PartialEqSpec;

verus! {

/// The rule of the game: a live cell with 2 or 3 live neighbours lives on, a dead cell with
/// exactly 3 comes alive, every other cell is dead in the next generation.
pub open spec fn survives(alive: bool, neighbors: int) -> bool {
    if alive {
        neighbors == 2 || neighbors == 3
    } else {
        neighbors == 3
    }
}

/// Chance, out of `ALIVE_OUT_OF`, that a cell of a random grid starts alive.
pub const ALIVE_CHANCE: u32 = 3;

pub const ALIVE_OUT_OF: u32 = 10;

/// Relies on `rand::thread_rng` and `Rng::gen_ratio`: true with probability
/// `numerator / denominator`; a ratio of 0 never gives true and a ratio of 1 always does.
/// `gen_ratio` panics unless `0 < denominator` and `numerator <= denominator`.
#[verifier::external_body]
fn chance(numerator: u32, denominator: u32) -> (r: bool)
    requires
        0 < denominator,
        numerator <= denominator,
    ensures
        numerator == 0 ==> !r,
        numerator == denominator ==> r,
{
    rand::thread_rng().gen_ratio(numerator, denominator)
}

/// A dense field of cells, `cells[row][col]`, `height` rows of `width` cells.
#[derive(Clone, Debug)]
pub struct Grid {
    pub cells: Vec<Vec<bool>>,
    pub width: usize,
    pub height: usize,
}

impl Grid {
    /// The field holds exactly `height` rows of exactly `width` cells.
    pub open spec fn wf(&self) -> bool {
        &&& self.cells@.len() == self.height
        &&& forall|r: int| 0 <= r < self.height ==> (#[trigger] self.cells@[r])@.len() == self.width
    }

    pub open spec fn in_bounds(&self, x: int, y: int) -> bool {
        0 <= x < self.width && 0 <= y < self.height
    }

    /// Whether the cell at column `x`, row `y` is alive; outside the field every cell is dead.
    pub open spec fn alive(&self, x: int, y: int) -> bool {
        self.in_bounds(x, y) && self.cells@[y]@[x]
    }

    /// 1 where the cell is alive, 0 where it is dead (outside the field included).
    pub open spec fn live(&self, x: int, y: int) -> int {
        if self.alive(x, y) { 1 } else { 0 }
    }

    /// Live cells among the eight cells around `(x, y)`, the cell itself excluded.
    pub open spec fn neighbors(&self, x: int, y: int) -> int {
        self.live(x - 1, y - 1) + self.live(x, y - 1) + self.live(x + 1, y - 1)
            + self.live(x - 1, y) + self.live(x + 1, y)
            + self.live(x - 1, y + 1) + self.live(x, y + 1) + self.live(x + 1, y + 1)
    }

    /// `next` is the generation that follows `self`: same size, each cell given by the rule
    /// applied to the cell and its neighbours in `self`.
    pub open spec fn steps_to(&self, next: Grid) -> bool {
        &&& next.wf()
        &&& next.width == self.width
        &&& next.height == self.height
        &&& forall|x: int, y: int| #[trigger] next.alive(x, y)
            == (self.in_bounds(x, y) && survives(self.alive(x, y), self.neighbors(x, y)))
    }

    /// Live cells among the first `n` cells of row `y`.
    pub open spec fn row_population(&self, y: int, n: int) -> int
        decreases n,
    {
        if n <= 0 {
            0
        } else {
            self.row_population(y, n - 1) + self.live(n - 1, y)
        }
    }

    /// Live cells in the first `m` rows.
    pub open spec fn rows_population(&self, m: int) -> int
        decreases m,
    {
        if m <= 0 {
            0
        } else {
            self.rows_population(m - 1) + self.row_population(m - 1, self.width as int)
        }
    }

    /// Live cells in the whole field.
    pub open spec fn population(&self) -> int {
        self.rows_population(self.height as int)
    }

    /// An all-dead grid of the given size.
    pub fn new(width: usize, height: usize) -> (r: Grid)
        ensures
            r.wf(),
            r.width == width,
            r.height == height,
            forall|x: int, y: int| !#[trigger] r.alive(x, y),
    {
        let mut cells: Vec<Vec<bool>> = Vec::new();
        let mut i: usize = 0;
        while i < height
            invariant
                i <= height,
                cells@.len() == i,
                forall|r: int| 0 <= r < i ==> (#[trigger] cells@[r])@ == Seq::new(width as nat, |c: int| false),
            decreases height - i,
        {
            let mut row: Vec<bool> = Vec::new();
            let mut j: usize = 0;
            while j < width
                invariant
                    j <= width,
                    row@ == Seq::new(j as nat, |c: int| false),
                decreases width - j,
            {
                row.push(false);
                j = j + 1;
                assert(row@ =~= Seq::new(j as nat, |c: int| false));
            }
            cells.push(row);
            i = i + 1;
        }
        Grid { cells, width, height }
    }

    /// A grid of the given size whose cells are each alive, independently, with probability
    /// `ALIVE_CHANCE / ALIVE_OUT_OF`: one draw per cell, in row-major order, laid out by
    /// `from_draws`.
    pub fn random(width: usize, height: usize) -> (r: Grid)
        ensures
            r.wf(),
            r.width == width,
            r.height == height,
    {
        let mut draws: Vec<bool> = Vec::new();
        let mut i: usize = 0;
        while i < height
            invariant
                i <= height,
                draws@.len() == i * width,
            decreases height - i,
        {
            let mut j: usize = 0;
            while j < width
                invariant
                    i < height,
                    j <= width,
                    draws@.len() == i * width + j,
                decreases width - j,
            {
                draws.push(chance(ALIVE_CHANCE, ALIVE_OUT_OF));
                j = j + 1;
            }
            assert((i + 1) * width == i * width + width) by (nonlinear_arith);
            i = i + 1;
        }
        Grid::from_draws(width, height, &draws)
    }

    /// The grid whose cell `(x, y)` is `draws[y * width + x]`: the draws fill the field row
    /// by row.
    pub fn from_draws(width: usize, height: usize, draws: &Vec<bool>) -> (r: Grid)
        requires
            draws@.len() == width * height,
        ensures
            r.wf(),
            r.width == width,
            r.height == height,
            forall|x: int, y: int| #[trigger] r.alive(x, y)
                == (0 <= x < width && 0 <= y < height && draws@[y * width + x]),
    {
        let total = draws.len();
        let mut cells: Vec<Vec<bool>> = Vec::new();
        let mut y: usize = 0;
        let mut k: usize = 0;
        while y < height
            invariant
                total == draws@.len(),
                draws@.len() == width * height,
                y <= height,
                k == y * width,
                cells@.len() == y,
                forall|r: int| 0 <= r < y ==> (#[trigger] cells@[r])@.len() == width,
                forall|r: int, c: int| 0 <= r < y && 0 <= c < width
                    ==> #[trigger] cells@[r]@[c] == draws@[r * width + c],
            decreases height - y,
        {
            let mut row: Vec<bool> = Vec::new();
            let mut x: usize = 0;
            while x < width
                invariant
                    total == draws@.len(),
                    draws@.len() == width * height,
                    y < height,
                    x <= width,
                    k == y * width + x,
                    row@.len() == x,
                    forall|c: int| 0 <= c < x ==> #[trigger] row@[c] == draws@[y * width + c],
                decreases width - x,
            {
                assert(y * width + x < width * height) by (nonlinear_arith)
                    requires
                        x < width,
                        y < height,
                ;
                row.push(draws[k]);
                k = k + 1;
                x = x + 1;
            }
            assert((y + 1) * width == y * width + width) by (nonlinear_arith);
            cells.push(row);
            y = y + 1;
        }
        Grid { cells, width, height }
    }

    /// Reads a cell; a position outside the field reads as dead.
    pub fn get(&self, x: usize, y: usize) -> (r: bool)
        requires
            self.wf(),
        ensures
            r == self.alive(x as int, y as int),
    {
        if x < self.width && y < self.height {
            self.cells[y][x]
        } else {
            false
        }
    }

    /// Writes a cell; a position outside the field is left alone.
    pub fn set(&mut self, x: usize, y: usize, alive: bool)
        requires
            old(self).wf(),
        ensures
            final(self).wf(),
            final(self).width == old(self).width,
            final(self).height == old(self).height,
            forall|a: int, b: int| #[trigger] final(self).alive(a, b) == if a == x && b == y {
                old(self).in_bounds(a, b) && alive
            } else {
                old(self).alive(a, b)
            },
    {
        if x < self.width && y < self.height {
            self.cells[y].set(x, alive);
        }
    }

    /// Counts the live cells among the eight around `(x, y)`; cells outside the field count
    /// as dead.
    pub fn count_neighbors(&self, x: usize, y: usize) -> (r: usize)
        requires
            self.wf(),
        ensures
            r as int == self.neighbors(x as int, y as int),
            r <= 8,
    {
        let mut count: usize = 0;
        let left = x > 0;
        let right = x < usize::MAX;
        let up = y > 0;
        let down = y < usize::MAX;
        if up && left && self.get(x - 1, y - 1) {
            count = count + 1;
        }
        if up && self.get(x, y - 1) {
            count = count + 1;
        }
        if up && right && self.get(x + 1, y - 1) {
            count = count + 1;
        }
        if left && self.get(x - 1, y) {
            count = count + 1;
        }
        if right && self.get(x + 1, y) {
            count = count + 1;
        }
        if down && left && self.get(x - 1, y + 1) {
            count = count + 1;
        }
        if down && self.get(x, y + 1) {
            count = count + 1;
        }
        if down && right && self.get(x + 1, y + 1) {
            count = count + 1;
        }
        count
    }

    /// The next generation, computed from this grid alone; this grid is left as it is.
    pub fn next_generation(&self) -> (r: Grid)
        requires
            self.wf(),
        ensures
            self.steps_to(r),
    {
        let mut cells: Vec<Vec<bool>> = Vec::new();
        let mut y: usize = 0;
        while y < self.height
            invariant
                self.wf(),
                y <= self.height,
                cells@.len() == y,
                forall|r: int| 0 <= r < y ==> (#[trigger] cells@[r])@.len() == self.width,
                forall|a: int, b: int|
                    0 <= b < y && 0 <= a < self.width ==> #[trigger] cells@[b]@[a]
                        == survives(self.alive(a, b), self.neighbors(a, b)),
            decreases self.height - y,
        {
            let mut row: Vec<bool> = Vec::new();
            let mut x: usize = 0;
            while x < self.width
                invariant
                    self.wf(),
                    y < self.height,
                    x <= self.width,
                    row@.len() == x,
                    forall|a: int| 0 <= a < x ==> #[trigger] row@[a]
                        == survives(self.alive(a, y as int), self.neighbors(a, y as int)),
                decreases self.width - x,
            {
                let n = self.count_neighbors(x, y);
                let alive = self.cells[y][x];
                let next = if alive {
                    n == 2 || n == 3
                } else {
                    n == 3
                };
                row.push(next);
                x = x + 1;
            }
            cells.push(row);
            y = y + 1;
        }
        let r = Grid { cells, width: self.width, height: self.height };
        assert forall|a: int, b: int| #[trigger] r.alive(a, b)
            == (self.in_bounds(a, b) && survives(self.alive(a, b), self.neighbors(a, b))) by {
            if self.in_bounds(a, b) {
                assert(r.cells@[b]@[a] == survives(self.alive(a, b), self.neighbors(a, b)));
            }
        }
        r
    }

    /// Counts the live cells of the whole field.
    pub fn count_alive(&self) -> (r: usize)
        requires
            self.wf(),
            self.width * self.height <= usize::MAX,
        ensures
            r as int == self.population(),
    {
        let mut total: usize = 0;
        let mut y: usize = 0;
        while y < self.height
            invariant
                self.wf(),
                self.width * self.height <= usize::MAX,
                y <= self.height,
                total as int == self.rows_population(y as int),
                self.rows_population(y as int) <= y * self.width,
            decreases self.height - y,
        {
            let mut x: usize = 0;
            let mut in_row: usize = 0;
            while x < self.width
                invariant
                    self.wf(),
                    y < self.height,
                    x <= self.width,
                    in_row as int == self.row_population(y as int, x as int),
                    in_row <= x,
                decreases self.width - x,
            {
                if self.cells[y][x] {
                    in_row = in_row + 1;
                }
                x = x + 1;
            }
            proof {
                assert((y + 1) * self.width == y * self.width + self.width) by (nonlinear_arith);
                assert((y + 1) * self.width <= self.width * self.height) by (nonlinear_arith)
                    requires y + 1 <= self.height;
            }
            total = total + in_row;
            y = y + 1;
        }
        total
    }
}

/// One tick of a run: the next generation, and whether it equals the current one, in which
/// case the population has become stable.
pub fn advance(grid: &Grid) -> (r: (Grid, bool))
    requires
        grid.wf(),
    ensures
        grid.steps_to(r.0),
        r.1 == r.0.eq_spec(grid),
{
    let next = grid.next_generation();
    let stable = next == *grid;
    (next, stable)
}

/// Equality is over the size and the contents of every row.
impl PartialEq for Grid {
    fn eq(&self, other: &Grid) -> (r: bool) {
        if self.width != other.width || self.height != other.height
            || self.cells.len() != other.cells.len() {
            return false;
        }
        let mut y: usize = 0;
        while y < self.cells.len()
            invariant
                self.cells@.len() == other.cells@.len(),
                y <= self.cells@.len(),
                forall|r: int| 0 <= r < y ==> (#[trigger] self.cells@[r])@ == other.cells@[r]@,
            decreases self.cells@.len() - y,
        {
            let a = &self.cells[y];
            let b = &other.cells[y];
            if a.len() != b.len() {
                return false;
            }
            let mut x: usize = 0;
            while x < a.len()
                invariant
                    y < self.cells@.len(),
                    self.cells@.len() == other.cells@.len(),
                    a@ == self.cells@[y as int]@,
                    b@ == other.cells@[y as int]@,
                    a@.len() == b@.len(),
                    x <= a@.len(),
                    forall|c: int| 0 <= c < x ==> #[trigger] a@[c] == b@[c],
                decreases a@.len() - x,
            {
                if a[x] != b[x] {
                    assert(self.cells@[y as int]@[x as int] != other.cells@[y as int]@[x as int]);
                    return false;
                }
                x = x + 1;
            }
            assert(a@ =~= b@);
            y = y + 1;
        }
        true
    }
}

impl vstd::std_specs::cmp::PartialEqSpecImpl for Grid {
    open spec fn obeys_eq_spec() -> bool {
        true
    }

    open spec fn eq_spec(&self, other: &Grid) -> bool {
        &&& self.width == other.width
        &&& self.height == other.height
        &&& self.cells@.len() == other.cells@.len()
        &&& forall|r: int| 0 <= r < self.cells@.len() ==> (#[trigger] self.cells@[r])@ == other.cells@[r]@
    }
}

} // verus!
