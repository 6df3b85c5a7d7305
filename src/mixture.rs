//! One buffer of the simulation: a row-major grid of cells with the kinetic
//! constants of every grid point, and the step that computes a new grid from
//! an old one.

use crate::cell::{clip, Cell, ReactionDiffusionRates, ONE};
use crate::stencil::{laplace_a, laplace_b, Cell3x3, ConvolutionMatrix, ROW_SUM_BOUND};
use vstd::prelude::*;
use vstd::std_specs::iter::IteratorSpec;

verus! {

broadcast use crate::cell::Cell::lemma_clipped, crate::cell::Cell::lemma_eq;

/// Scale of a product of three millionths once reduced to millionths.
pub const SQUARE: u64 = 1_000_000_000_000;

/// Row-major position of column `x`, row `y` in a grid `w` wide.
pub open spec fn index_of(w: int, x: int, y: int) -> int {
    y * w + x
}

/// `(x, y)` lies on the outer ring of a `w`×`h` grid.
pub open spec fn on_border(w: int, h: int, x: int, y: int) -> bool {
    x == 0 || y == 0 || x == w - 1 || y == h - 1
}

/// The cell at column `x`, row `y`, if the grid has one there.
pub open spec fn cell_at(cells: Seq<Cell>, w: int, h: int, x: int, y: int) -> Option<Cell> {
    if 0 <= x < w && 0 <= y < h && index_of(w, x, y) < cells.len() {
        Some(cells[index_of(w, x, y)])
    } else {
        None
    }
}

/// The 3×3 window of `cells` centred on column `x`, row `y`.
pub closed spec fn window(cells: Seq<Cell>, w: int, x: int, y: int) -> Cell3x3<Cell> {
    let near = |dx: int, dy: int| cells[index_of(w, x + dx, y + dy)];
    Cell3x3 {
        cells: [
            (near(-1, -1), near(0, -1), near(1, -1)),
            (near(-1, 0), near(0, 0), near(1, 0)),
            (near(-1, 1), near(0, 1), near(1, 1)),
        ],
    }
}

/// New concentration of species A, before reduction, in units of
/// `1 / (ONE * ONE * ONE)`:
/// `a + da * La - a * b * b + feed * (1 - a)`.
pub open spec fn next_a_scaled(n: Cell3x3<Cell>, k: ConvolutionMatrix, r: ReactionDiffusionRates) -> int {
    let a = n.at(1, 1).a() as int;
    let b = n.at(1, 1).b() as int;
    a * ONE * ONE + r.da * laplace_a(n, k) - a * b * b + r.feed_rate * (ONE - a) * ONE
}

/// New concentration of species B, before reduction, in units of
/// `1 / (ONE * ONE * ONE)`:
/// `b + db * Lb + a * b * b - (kill + feed) * b`.
pub open spec fn next_b_scaled(n: Cell3x3<Cell>, k: ConvolutionMatrix, r: ReactionDiffusionRates) -> int {
    let a = n.at(1, 1).a() as int;
    let b = n.at(1, 1).b() as int;
    b * ONE * ONE + r.db * laplace_b(n, k) + a * b * b - (r.kill_rate + r.feed_rate) * b * ONE
}

/// One explicit Euler step of the Gray-Scott kinetics at the centre of `n`,
/// rounded down to millionths and clipped into `[0, ONE]`.
pub open spec fn react(n: Cell3x3<Cell>, k: ConvolutionMatrix, r: ReactionDiffusionRates) -> Cell {
    Cell::clipped(next_a_scaled(n, k, r) / (SQUARE as int), next_b_scaled(n, k, r) / (SQUARE as int))
}

/// The value that grid point `i` takes in the next tick: unchanged on the
/// outer ring, the reaction step everywhere else.
pub open spec fn next_cell(
    cells: Seq<Cell>,
    rates: Seq<ReactionDiffusionRates>,
    w: int,
    h: int,
    k: ConvolutionMatrix,
    i: int,
) -> Cell {
    let x = i % w;
    let y = i / w;
    if on_border(w, h, x, y) {
        cells[i]
    } else {
        react(window(cells, w, x, y), k, rates[i])
    }
}

/// The whole grid one tick later.
pub open spec fn next_generation(
    cells: Seq<Cell>,
    rates: Seq<ReactionDiffusionRates>,
    w: int,
    h: int,
    k: ConvolutionMatrix,
) -> Seq<Cell> {
    Seq::new(cells.len(), |i: int| next_cell(cells, rates, w, h, k, i))
}

/// A step keeps every cell in `[0, ONE]`: the ring is copied and every
/// other cell is clipped.
pub proof fn lemma_next_generation_in_unit_range(
    cells: Seq<Cell>,
    rates: Seq<ReactionDiffusionRates>,
    w: int,
    h: int,
    k: ConvolutionMatrix,
)
    requires
        forall|i: int| 0 <= i < cells.len() ==> (#[trigger] cells[i]).in_unit_range(),
    ensures
        forall|i: int|
            0 <= i < cells.len() ==> (#[trigger] next_generation(cells, rates, w, h, k)[i]).in_unit_range(),
{
}

/// Position `i` of a `w`×`h` grid is column `i % w` of row `i / w`.
pub proof fn lemma_coords(w: int, h: int, i: int)
    requires
        0 <= w,
        0 <= h,
        0 <= i < w * h,
    ensures
        0 <= i % w < w,
        0 <= i / w < h,
        index_of(w, i % w, i / w) == i,
{
    assert(w > 0) by (nonlinear_arith)
        requires
            0 <= i < w * h,
            0 <= w,
    {
    }
    vstd::arithmetic::div_mod::lemma_fundamental_div_mod(i, w);
    vstd::arithmetic::div_mod::lemma_mod_pos_bound(i, w);
    vstd::arithmetic::div_mod::lemma_div_pos_is_pos(i, w);
    let y = i / w;
    let x = i % w;
    vstd::arithmetic::mul::lemma_mul_is_commutative(w, y);
    assert(y < h) by (nonlinear_arith)
        requires
            i == w * y + x,
            0 <= x,
            i < w * h,
            w > 0,
    {
    }
}

/// Column `x`, row `y` of a `w`×`h` grid is at a position inside it, from
/// which they can be read back.
pub proof fn lemma_index(w: int, h: int, x: int, y: int)
    requires
        0 <= x < w,
        0 <= y < h,
    ensures
        0 <= index_of(w, x, y) < w * h,
        index_of(w, x, y) % w == x,
        index_of(w, x, y) / w == y,
{
    assert(0 <= y * w + x < w * h) by (nonlinear_arith)
        requires
            0 <= x < w,
            0 <= y < h,
    {
    }
    vstd::arithmetic::div_mod::lemma_fundamental_div_mod_converse(y * w + x, w, y, x);
}

/// A `w`×`h` grid of cells together with the constants of each grid point,
/// both stored row by row.
pub struct Mixture {
    cells: Vec<Cell>,
    rdks: Vec<ReactionDiffusionRates>,
    width: usize,
    height: usize,
}

impl Mixture {
    /// The cells, row by row.
    pub closed spec fn grid(&self) -> Seq<Cell> {
        self.cells@
    }

    /// The kinetic constants, row by row.
    pub closed spec fn constants(&self) -> Seq<ReactionDiffusionRates> {
        self.rdks@
    }

    /// Number of columns.
    pub closed spec fn width(&self) -> nat {
        self.width as nat
    }

    /// Number of rows.
    pub closed spec fn height(&self) -> nat {
        self.height as nat
    }

    /// An empty buffer for a `width`×`height` grid.
    pub fn new(width: usize, height: usize) -> (r: Self)
        ensures
            r.width() == width,
            r.height() == height,
            r.grid().len() == 0,
            r.constants().len() == 0,
    {
        Mixture { cells: Vec::new(), rdks: Vec::new(), width, height }
    }

    /// Fills the grid row by row with `func(x, y)`, replacing what it held.
    pub fn populate<F>(&mut self, func: F) where F: Fn(usize, usize) -> Cell
        requires
            old(self).width() * old(self).height() <= usize::MAX,
            forall|x: usize, y: usize|
                x < old(self).width() && y < old(self).height() ==> #[trigger] func.requires((x, y)),
        ensures
            final(self).width() == old(self).width(),
            final(self).height() == old(self).height(),
            final(self).constants() == old(self).constants(),
            final(self).grid().len() == final(self).width() * final(self).height(),
            forall|x: usize, y: usize|
                x < final(self).width() && y < final(self).height() ==> func.ensures(
                    (x, y),
                    #[trigger] final(self).grid()[index_of(final(self).width() as int, x as int, y as int)],
                ),
            forall|i: int|
                0 <= i < final(self).grid().len() ==> (#[trigger] final(self).grid()[i]).in_unit_range(),
    {
        let w = self.width;
        let n = self.width * self.height;
        let mut cells: Vec<Cell> = Vec::new();
        let mut i: usize = 0;
        while i < n
            invariant
                n == w * self.height,
                w == self.width,
                forall|x: usize, y: usize| x < w && y < self.height ==> #[trigger] func.requires((x, y)),
                i <= n,
                cells@.len() == i,
                forall|j: int|
                    0 <= j < i ==> func.ensures(
                        ((j % w as int) as usize, (j / w as int) as usize),
                        #[trigger] cells@[j],
                    ),
                forall|j: int| 0 <= j < i ==> (#[trigger] cells@[j]).in_unit_range(),
            decreases n - i,
        {
            proof {
                lemma_coords(w as int, self.height as int, i as int);
            }
            let cell = func(i % w, i / w);
            proof {
                use_type_invariant(&cell);
            }
            cells.push(cell);
            i = i + 1;
        }
        self.cells = cells;
        assert forall|x: usize, y: usize| x < w && y < self.height implies func.ensures(
            (x, y),
            #[trigger] self.cells@[index_of(w as int, x as int, y as int)],
        ) by {
            lemma_index(w as int, self.height as int, x as int, y as int);
        }
    }

    /// Fills the constants row by row with `func(x, y)`, replacing what they
    /// held.
    pub fn populate_constants<F>(&mut self, func: F) where F: Fn(usize, usize) -> ReactionDiffusionRates
        requires
            old(self).width() * old(self).height() <= usize::MAX,
            forall|x: usize, y: usize|
                x < old(self).width() && y < old(self).height() ==> #[trigger] func.requires((x, y)),
        ensures
            final(self).width() == old(self).width(),
            final(self).height() == old(self).height(),
            final(self).grid() == old(self).grid(),
            final(self).constants().len() == final(self).width() * final(self).height(),
            forall|x: usize, y: usize|
                x < final(self).width() && y < final(self).height() ==> func.ensures(
                    (x, y),
                    #[trigger] final(self).constants()[index_of(final(self).width() as int, x as int, y as int)],
                ),
    {
        let w = self.width;
        let n = self.width * self.height;
        let mut rdks: Vec<ReactionDiffusionRates> = Vec::new();
        let mut i: usize = 0;
        while i < n
            invariant
                n == w * self.height,
                w == self.width,
                forall|x: usize, y: usize| x < w && y < self.height ==> #[trigger] func.requires((x, y)),
                i <= n,
                rdks@.len() == i,
                forall|j: int|
                    0 <= j < i ==> func.ensures(
                        ((j % w as int) as usize, (j / w as int) as usize),
                        #[trigger] rdks@[j],
                    ),
            decreases n - i,
        {
            proof {
                lemma_coords(w as int, self.height as int, i as int);
            }
            rdks.push(func(i % w, i / w));
            i = i + 1;
        }
        self.rdks = rdks;
        assert forall|x: usize, y: usize| x < w && y < self.height implies func.ensures(
            (x, y),
            #[trigger] self.rdks@[index_of(w as int, x as int, y as int)],
        ) by {
            lemma_index(w as int, self.height as int, x as int, y as int);
        }
    }

    /// Writes into this buffer the grid that `values` holds one tick later:
    /// every grid point off the outer ring takes the reaction step on its
    /// neighbourhood in `values` and its own constants; the ring is copied.
    pub fn update(&mut self, values: &Self, conv3x3: &ConvolutionMatrix)
        requires
            old(self).width() == values.width(),
            old(self).height() == values.height(),
            values.width() * values.height() <= usize::MAX,
            old(self).grid().len() == values.width() * values.height(),
            values.grid().len() == values.width() * values.height(),
            values.constants().len() == values.width() * values.height(),
        ensures
            final(self).width() == old(self).width(),
            final(self).height() == old(self).height(),
            final(self).constants() == old(self).constants(),
            final(self).grid() == next_generation(
                values.grid(),
                values.constants(),
                values.width() as int,
                values.height() as int,
                *conv3x3,
            ),
    {
        let w = values.width;
        let n = values.width * values.height;
        let ghost target = next_generation(
            values.grid(),
            values.constants(),
            w as int,
            values.height as int,
            *conv3x3,
        );
        let mut i: usize = 0;
        while i < n
            invariant
                n == w * values.height,
                w == values.width,
                n <= usize::MAX,
                self.width == values.width,
                self.height == values.height,
                self.rdks@ == old(self).rdks@,
                self.cells@.len() == n,
                values.cells@.len() == n,
                values.rdks@.len() == n,
                target.len() == n,
                target == next_generation(
                    values.grid(),
                    values.constants(),
                    w as int,
                    values.height as int,
                    *conv3x3,
                ),
                i <= n,
                forall|j: int| 0 <= j < i ==> self.cells@[j] == target[j],
            decreases n - i,
        {
            proof {
                lemma_coords(w as int, values.height as int, i as int);
            }
            let next = match Cell3x3::from_mixture_at_xy(values, i % w, i / w) {
                Some(cells3x3) => Self::react_and_diffuse(&cells3x3, conv3x3, &values.rdks[i]),
                None => values.cells[i],
            };
            self.cells.set(i, next);
            i = i + 1;
        }
        assert(self.cells@ =~= target);
    }

    /// Whether the grid holds a cell for every grid point.
    pub fn has_full_grid(&self) -> (r: bool)
        requires
            self.width() * self.height() <= usize::MAX,
        ensures
            r == (self.grid().len() == self.width() * self.height()),
    {
        self.cells.len() == self.width * self.height
    }

    /// Whether the constants cover every grid point.
    pub fn has_full_constants(&self) -> (r: bool)
        requires
            self.width() * self.height() <= usize::MAX,
        ensures
            r == (self.constants().len() == self.width() * self.height()),
    {
        self.rdks.len() == self.width * self.height
    }

    /// Makes this grid a copy of `source`'s.
    pub fn clone_grid_from(&mut self, source: &Mixture)
        ensures
            final(self).grid() == source.grid(),
            final(self).constants() == old(self).constants(),
            final(self).width() == old(self).width(),
            final(self).height() == old(self).height(),
    {
        self.cells = source.cells.clone();
        assert(self.cells@ =~= source.cells@);
    }

    /// Makes these constants a copy of `source`'s.
    pub fn clone_constants_from(&mut self, source: &Mixture)
        ensures
            final(self).constants() == source.constants(),
            final(self).grid() == old(self).grid(),
            final(self).width() == old(self).width(),
            final(self).height() == old(self).height(),
    {
        self.rdks = source.rdks.clone();
        assert(self.rdks@ =~= source.rdks@);
    }

    /// Walks the grid row by row.
    pub fn iter(&self) -> (r: std::slice::Iter<'_, Cell>)
        ensures
            r.remaining() == self.grid().as_ref(),
    {
        self.cells.as_slice().iter()
    }

    /// The cell at column `x`, row `y`, if the grid has one there.
    pub fn at_xy(&self, x: usize, y: usize) -> (r: Option<Cell>)
        requires
            self.width() * self.height() <= usize::MAX,
        ensures
            r == cell_at(self.grid(), self.width() as int, self.height() as int, x as int, y as int),
    {
        if x < self.width && y < self.height {
            proof {
                lemma_index(self.width as int, self.height as int, x as int, y as int);
            }
            let index = y * self.width + x;
            if index < self.cells.len() {
                Some(self.cells[index])
            } else {
                None
            }
        } else {
            None
        }
    }

    /// A weighted sum of millionths reduced to millionths, rounded down and
    /// clipped into `[0, ONE]`.
    fn settle(v: i128) -> (r: i64)
        ensures
            r == clip(v as int / (SQUARE as int)),
    {
        if v < 0 {
            assert(v as int / (SQUARE as int) < 0);
            0
        } else {
            let q = v as u128 / SQUARE as u128;
            if q > ONE as u128 {
                ONE as i64
            } else {
                q as i64
            }
        }
    }

    /// One explicit Euler step of the Gray-Scott kinetics at the centre of
    /// `cells3x3`, with diffusion through `conv3x3` and the constants `k`.
    pub fn react_and_diffuse(
        cells3x3: &Cell3x3<Cell>,
        conv3x3: &ConvolutionMatrix,
        k: &ReactionDiffusionRates,
    ) -> (r: Cell)
        ensures
            r == react(*cells3x3, *conv3x3, *k),
    {
        let cell = cells3x3.center();
        let (la, lb) = cells3x3.laplace(conv3x3);
        let a = cell.a() as i128;
        let b = cell.b() as i128;
        let one = ONE as i128;
        let bound = 3 * ROW_SUM_BOUND as i128;
        proof {
            assert(0 <= a * b <= 1_000_000_000_000) by (nonlinear_arith)
                requires
                    0 <= a <= 1_000_000,
                    0 <= b <= 1_000_000,
            ;
            assert(0 <= a * b * b <= 1_000_000_000_000_000_000) by (nonlinear_arith)
                requires
                    0 <= a <= 1_000_000,
                    0 <= b <= 1_000_000,
            ;
            assert(-bound * 4_294_967_295 <= k.da * la <= bound * 4_294_967_295) by (nonlinear_arith)
                requires
                    -bound <= la <= bound,
                    0 <= k.da <= 4_294_967_295,
            ;
            assert(-bound * 4_294_967_295 <= k.db * lb <= bound * 4_294_967_295) by (nonlinear_arith)
                requires
                    -bound <= lb <= bound,
                    0 <= k.db <= 4_294_967_295,
            ;
            assert(0 <= k.feed_rate * (one - a) <= 4_294_967_295 * 1_000_000) by (nonlinear_arith)
                requires
                    0 <= a <= one,
                    one == 1_000_000,
                    0 <= k.feed_rate <= 4_294_967_295,
            ;
            assert(0 <= (k.kill_rate + k.feed_rate) * b <= 8_589_934_590 * 1_000_000) by (nonlinear_arith)
                requires
                    0 <= b <= 1_000_000,
                    0 <= k.kill_rate + k.feed_rate <= 8_589_934_590,
            ;
        }
        let a_bpow2 = a * b * b;
        let next_a = a * one * one + k.da as i128 * la as i128 - a_bpow2 + k.feed_rate as i128 * (one - a) * one;
        let next_b = b * one * one + k.db as i128 * lb as i128 + a_bpow2 - (k.kill_rate as i128 + k.feed_rate as i128) * b * one;
        Cell::new(Self::settle(next_a), Self::settle(next_b))
    }
}

impl Cell3x3<Cell> {
    /// The window of `mixture` centred on column `x`, row `y`; none on the
    /// outer ring, where a grid point has no full neighbourhood.
    pub fn from_mixture_at_xy(mixture: &Mixture, x: usize, y: usize) -> (r: Option<Self>)
        requires
            x < mixture.width(),
            y < mixture.height(),
            mixture.width() * mixture.height() <= usize::MAX,
            mixture.grid().len() == mixture.width() * mixture.height(),
        ensures
            r == if on_border(mixture.width() as int, mixture.height() as int, x as int, y as int) {
                None
            } else {
                Some(window(mixture.grid(), mixture.width() as int, x as int, y as int))
            },
    {
        if x == 0 || y == 0 || x == (mixture.width - 1) || y == (mixture.height - 1) {
            None
        } else {
            let w = mixture.width;
            proof {
                lemma_index(w as int, mixture.height as int, x as int + 1, y as int + 1);
                lemma_index(w as int, mixture.height as int, x as int - 1, y as int - 1);
                lemma_index(w as int, mixture.height as int, x as int, y as int);
            }
            let above = (y - 1) * w + x;
            let index = y * w + x;
            let below = (y + 1) * w + x;
            assert(index == above + w && below == index + w) by (nonlinear_arith)
                requires
                    above == (y - 1) * w + x,
                    index == y * w + x,
                    below == (y + 1) * w + x,
            ;
            let cells: [(Cell, Cell, Cell); 3] = [
                (mixture.cells[above - 1], mixture.cells[above], mixture.cells[above + 1]),
                (mixture.cells[index - 1], mixture.cells[index], mixture.cells[index + 1]),
                (mixture.cells[below - 1], mixture.cells[below], mixture.cells[below + 1]),
            ];
            Some(Cell3x3 { cells })
        }
    }
}

} // verus!
