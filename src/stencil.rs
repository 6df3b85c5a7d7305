//! 3×3 windows of values: the neighbourhood of a grid point, and the
//! convolution weights of the discrete Laplacian.

use crate::cell::Cell;
use vstd::prelude::*;

verus! {

/// Weight of each corner neighbour, in millionths (0.05).
pub const CORNER_WEIGHT: i32 = 50_000;

/// Weight of each edge-adjacent neighbour, in millionths (0.2).
pub const EDGE_WEIGHT: i32 = 200_000;

/// Weight of the centre, in millionths (-1.0).
pub const CENTER_WEIGHT: i32 = -1_000_000;

/// Three rows of three values, row by row; the centre is row 1, column 1.
pub struct Cell3x3<T = Cell> {
    pub(crate) cells: [(T, T, T); 3],
}

/// Stencil weights in millionths.
pub type ConvolutionMatrix = Cell3x3<i32>;

impl<T> Cell3x3<T> {
    /// The value in row `r`, column `c` (both in `0..3`).
    pub closed spec fn at(&self, r: int, c: int) -> T {
        let row = self.cells[r];
        if c == 0 {
            row.0
        } else if c == 1 {
            row.1
        } else {
            row.2
        }
    }

    /// The window holding `rows`.
    pub closed spec fn from_rows(rows: [(T, T, T); 3]) -> Self {
        Cell3x3 { cells: rows }
    }
}

impl<T: Copy> Cell3x3<T> {
    /// The middle value.
    pub fn center(&self) -> (r: T)
        ensures
            r == self.at(1, 1),
    {
        self.cells[1].1
    }
}

impl<T> From<[(T, T, T); 3]> for Cell3x3<T> {
    fn from(cells: [(T, T, T); 3]) -> (r: Self)
        ensures
            r == Cell3x3::from_rows(cells),
    {
        Cell3x3 { cells }
    }
}

impl<T> vstd::std_specs::convert::FromSpecImpl<[(T, T, T); 3]> for Cell3x3<T> {
    open spec fn obeys_from_spec() -> bool {
        true
    }

    open spec fn from_spec(v: [(T, T, T); 3]) -> Self {
        Cell3x3::from_rows(v)
    }
}

/// The stencil of the discrete Laplacian: -1 at the centre, 0.2 on the four
/// edge-adjacent neighbours, 0.05 on the four corners. Its weights sum to 0.
pub closed spec fn laplacian_kernel() -> ConvolutionMatrix {
    Cell3x3 {
        cells: [
            (CORNER_WEIGHT, EDGE_WEIGHT, CORNER_WEIGHT),
            (EDGE_WEIGHT, CENTER_WEIGHT, EDGE_WEIGHT),
            (CORNER_WEIGHT, EDGE_WEIGHT, CORNER_WEIGHT),
        ],
    }
}

/// Builds the stencil of the discrete Laplacian.
pub fn laplacian() -> (r: ConvolutionMatrix)
    ensures
        r == laplacian_kernel(),
{
    Cell3x3::from(
        [
            (CORNER_WEIGHT, EDGE_WEIGHT, CORNER_WEIGHT),
            (EDGE_WEIGHT, CENTER_WEIGHT, EDGE_WEIGHT),
            (CORNER_WEIGHT, EDGE_WEIGHT, CORNER_WEIGHT),
        ],
    )
}

/// Row `r` of the weighted sum of species A.
pub open spec fn row_sum_a(n: Cell3x3<Cell>, w: ConvolutionMatrix, r: int) -> int {
    w.at(r, 0) * n.at(r, 0).a() + w.at(r, 1) * n.at(r, 1).a() + w.at(r, 2) * n.at(r, 2).a()
}

/// Row `r` of the weighted sum of species B.
pub open spec fn row_sum_b(n: Cell3x3<Cell>, w: ConvolutionMatrix, r: int) -> int {
    w.at(r, 0) * n.at(r, 0).b() + w.at(r, 1) * n.at(r, 1).b() + w.at(r, 2) * n.at(r, 2).b()
}

/// Sum of the nine concentrations of species A, each times its weight, in
/// millionths of millionths.
pub open spec fn laplace_a(n: Cell3x3<Cell>, w: ConvolutionMatrix) -> int {
    row_sum_a(n, w, 0) + row_sum_a(n, w, 1) + row_sum_a(n, w, 2)
}

/// Sum of the nine concentrations of species B, each times its weight, in
/// millionths of millionths.
pub open spec fn laplace_b(n: Cell3x3<Cell>, w: ConvolutionMatrix) -> int {
    row_sum_b(n, w, 0) + row_sum_b(n, w, 1) + row_sum_b(n, w, 2)
}

/// Largest magnitude of one row's weighted sum.
pub const ROW_SUM_BOUND: i64 = 3 * 2_147_483_648 * 1_000_000;

/// `w * c` for a weight and a concentration, with its bound.
fn weigh(w: i32, c: u32) -> (r: i64)
    requires
        c <= crate::cell::ONE,
    ensures
        r == w * c,
        -2_147_483_648 * 1_000_000 <= r <= 2_147_483_648 * 1_000_000,
{
    proof {
        assert(-2_147_483_648 * 1_000_000 <= w * c <= 2_147_483_648 * 1_000_000) by (nonlinear_arith)
            requires
                -2_147_483_648 <= w < 2_147_483_648,
                0 <= c <= 1_000_000,
        ;
    }
    w as i64 * c as i64
}

impl Cell3x3<Cell> {
    /// Weighted sums of one row, for species A and B.
    fn row_sums(&self, w: &ConvolutionMatrix, r: usize) -> (s: (i64, i64))
        requires
            r < 3,
        ensures
            s.0 == row_sum_a(*self, *w, r as int),
            s.1 == row_sum_b(*self, *w, r as int),
            -ROW_SUM_BOUND <= s.0 <= ROW_SUM_BOUND,
            -ROW_SUM_BOUND <= s.1 <= ROW_SUM_BOUND,
    {
        let (c0, c1, c2) = self.cells[r];
        let (w0, w1, w2) = w.cells[r];
        let a = weigh(w0, c0.a()) + weigh(w1, c1.a()) + weigh(w2, c2.a());
        let b = weigh(w0, c0.b()) + weigh(w1, c1.b()) + weigh(w2, c2.b());
        (a, b)
    }

    /// The convolution of each species with `weights`: the weighted sums
    /// `(laplace_a, laplace_b)`, exact, in millionths of millionths.
    pub fn laplace(&self, weights: &ConvolutionMatrix) -> (r: (i64, i64))
        ensures
            r.0 == laplace_a(*self, *weights),
            r.1 == laplace_b(*self, *weights),
            -3 * ROW_SUM_BOUND <= r.0 <= 3 * ROW_SUM_BOUND,
            -3 * ROW_SUM_BOUND <= r.1 <= 3 * ROW_SUM_BOUND,
    {
        let mut sum_a: i64 = 0;
        let mut sum_b: i64 = 0;
        let mut i: usize = 0;
        while i < 3
            invariant
                i <= 3,
                -ROW_SUM_BOUND * i <= sum_a <= ROW_SUM_BOUND * i,
                -ROW_SUM_BOUND * i <= sum_b <= ROW_SUM_BOUND * i,
                i == 0 ==> sum_a == 0 && sum_b == 0,
                i == 1 ==> sum_a == row_sum_a(*self, *weights, 0) && sum_b == row_sum_b(
                    *self,
                    *weights,
                    0,
                ),
                i == 2 ==> sum_a == row_sum_a(*self, *weights, 0) + row_sum_a(*self, *weights, 1)
                    && sum_b == row_sum_b(*self, *weights, 0) + row_sum_b(*self, *weights, 1),
                i == 3 ==> sum_a == laplace_a(*self, *weights) && sum_b == laplace_b(
                    *self,
                    *weights,
                ),
            decreases 3 - i,
        {
            let (ra, rb) = self.row_sums(weights, i);
            sum_a = sum_a + ra;
            sum_b = sum_b + rb;
            i = i + 1;
        }
        (sum_a, sum_b)
    }
}

} // verus!
