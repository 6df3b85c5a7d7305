//! The simulator: two buffers of identical size used in turn, so that every
//! step reads only the previous tick's grid and writes only the other buffer.

use crate::cell::{Cell, ReactionDiffusionRates};
use crate::mixture::{cell_at, index_of, lemma_index, next_generation, on_border, Mixture};
use crate::stencil::{laplacian, laplacian_kernel, ConvolutionMatrix};
use vstd::prelude::*;
use vstd::std_specs::iter::IteratorSpec;

verus! {

/// Why a step was refused.
#[derive(Clone, Copy, PartialEq, Eq, Structural, Debug)]
pub enum DishError {
    /// The cells have not been seeded.
    CellsNotSeeded,
    /// The kinetic constants have not been seeded.
    RatesNotSeeded,
}

/// A reaction-diffusion run on a fixed `width`×`height` grid.
pub struct PetriDish {
    buf1: Mixture,
    buf2: Mixture,
    index: usize,
    conv3x3: ConvolutionMatrix,
}

/// `cells` holds, at every grid point of a `w`×`h` grid, a value that
/// `seed_fn` can return for that point.
pub open spec fn seeded_from<F: Fn(usize, usize) -> Cell>(cells: Seq<Cell>, w: nat, h: nat, seed_fn: F) -> bool {
    &&& cells.len() == w * h
    &&& forall|x: usize, y: usize|
        x < w && y < h ==> seed_fn.ensures((x, y), #[trigger] cells[index_of(w as int, x as int, y as int)])
}

/// `rates` holds, at every grid point of a `w`×`h` grid, a value that
/// `seed_fn` can return for that point.
pub open spec fn rates_seeded_from<F: Fn(usize, usize) -> ReactionDiffusionRates>(
    rates: Seq<ReactionDiffusionRates>,
    w: nat,
    h: nat,
    seed_fn: F,
) -> bool {
    &&& rates.len() == w * h
    &&& forall|x: usize, y: usize|
        x < w && y < h ==> seed_fn.ensures((x, y), #[trigger] rates[index_of(w as int, x as int, y as int)])
}

/// What one call of `update` does: on a seeded dish it replaces the live grid
/// by the next generation and flips the parity; otherwise it reports what is
/// missing and changes nothing.
pub open spec fn update_outcome(before: PetriDish, after: PetriDish, r: Result<(), DishError>) -> bool {
    &&& after.wf()
    &&& after.width() == before.width()
    &&& after.height() == before.height()
    &&& after.rates() == before.rates()
    &&& if !before.cells_seeded() {
        r == Err::<(), DishError>(DishError::CellsNotSeeded) && after == before
    } else if !before.rates_seeded() {
        r == Err::<(), DishError>(DishError::RatesNotSeeded) && after == before
    } else {
        &&& r is Ok
        &&& after.parity() == 1 - before.parity()
        &&& after.live() == next_generation(
            before.live(),
            before.rates(),
            before.width() as int,
            before.height() as int,
            laplacian_kernel(),
        )
    }
}

/// The grid `ticks` steps after `cells`: what that many successful calls of
/// `update` make of the live grid.
pub open spec fn generations(
    cells: Seq<Cell>,
    rates: Seq<ReactionDiffusionRates>,
    w: int,
    h: int,
    ticks: nat,
) -> Seq<Cell>
    decreases ticks,
{
    if ticks == 0 {
        cells
    } else {
        next_generation(generations(cells, rates, w, h, (ticks - 1) as nat), rates, w, h, laplacian_kernel())
    }
}

/// Both concentrations of every cell stay within `[0, ONE]` for any number
/// of ticks, given that they start there.
pub proof fn lemma_cells_stay_in_unit_range(
    cells: Seq<Cell>,
    rates: Seq<ReactionDiffusionRates>,
    w: int,
    h: int,
    ticks: nat,
)
    requires
        forall|i: int| 0 <= i < cells.len() ==> (#[trigger] cells[i]).in_unit_range(),
    ensures
        generations(cells, rates, w, h, ticks).len() == cells.len(),
        forall|i: int|
            0 <= i < cells.len() ==> (#[trigger] generations(cells, rates, w, h, ticks)[i]).in_unit_range(),
    decreases ticks,
{
    if ticks > 0 {
        lemma_cells_stay_in_unit_range(cells, rates, w, h, (ticks - 1) as nat);
        crate::mixture::lemma_next_generation_in_unit_range(
            generations(cells, rates, w, h, (ticks - 1) as nat),
            rates,
            w,
            h,
            laplacian_kernel(),
        );
    }
}

/// Every live cell of a dish lies in `[0, ONE]`, seeded or stepped.
pub proof fn lemma_live_cells_in_unit_range(dish: PetriDish)
    requires
        dish.wf(),
    ensures
        forall|i: int| 0 <= i < dish.live().len() ==> (#[trigger] dish.live()[i]).in_unit_range(),
{
}

/// A cell on the outer ring keeps its seeded value for any number of ticks.
pub proof fn lemma_border_frozen(
    cells: Seq<Cell>,
    rates: Seq<ReactionDiffusionRates>,
    w: int,
    h: int,
    ticks: nat,
    x: int,
    y: int,
)
    requires
        cells.len() == w * h,
        0 <= x < w,
        0 <= y < h,
        on_border(w, h, x, y),
    ensures
        generations(cells, rates, w, h, ticks)[index_of(w, x, y)] == cells[index_of(w, x, y)],
    decreases ticks,
{
    lemma_index(w, h, x, y);
    if ticks > 0 {
        lemma_border_frozen(cells, rates, w, h, (ticks - 1) as nat, x, y);
        lemma_generations_len(cells, rates, w, h, (ticks - 1) as nat);
    }
}

/// Stepping keeps the number of cells.
pub proof fn lemma_generations_len(
    cells: Seq<Cell>,
    rates: Seq<ReactionDiffusionRates>,
    w: int,
    h: int,
    ticks: nat,
)
    ensures
        generations(cells, rates, w, h, ticks).len() == cells.len(),
    decreases ticks,
{
    if ticks > 0 {
        lemma_generations_len(cells, rates, w, h, (ticks - 1) as nat);
    }
}

/// Two calls of `update` in a row leave the parity where it was.
pub proof fn lemma_update_twice_restores_parity(
    first: PetriDish,
    second: PetriDish,
    third: PetriDish,
    r1: Result<(), DishError>,
    r2: Result<(), DishError>,
)
    requires
        first.wf(),
        update_outcome(first, second, r1),
        update_outcome(second, third, r2),
    ensures
        third.parity() == first.parity(),
{
}

/// Right after seeding, every grid point reads back the value that the
/// seed function gave it.
pub proof fn lemma_seeded_cells_read_back<F: Fn(usize, usize) -> Cell>(
    dish: PetriDish,
    seed_fn: F,
    x: usize,
    y: usize,
)
    requires
        dish.wf(),
        seeded_from(dish.live(), dish.width(), dish.height(), seed_fn),
        x < dish.width(),
        y < dish.height(),
    ensures
        cell_at(dish.live(), dish.width() as int, dish.height() as int, x as int, y as int) is Some,
        seed_fn.ensures(
            (x, y),
            cell_at(dish.live(), dish.width() as int, dish.height() as int, x as int, y as int)->Some_0,
        ),
{
    lemma_index(dish.width() as int, dish.height() as int, x as int, y as int);
}

/// Two walks over the same dish, with no step between them, visit the same
/// cells in the same order.
pub proof fn lemma_iter_repeatable(
    dish: PetriDish,
    first: std::slice::Iter<'_, Cell>,
    second: std::slice::Iter<'_, Cell>,
)
    requires
        first.remaining() == dish.live().as_ref(),
        second.remaining() == dish.live().as_ref(),
    ensures
        first.remaining() == second.remaining(),
        first.remaining().unref() == dish.live(),
{
    assert(first.remaining().unref() =~= dish.live());
}

impl PetriDish {
    /// Number of columns.
    pub closed spec fn width(&self) -> nat {
        self.buf1.width()
    }

    /// Number of rows.
    pub closed spec fn height(&self) -> nat {
        self.buf1.height()
    }

    /// Which buffer is live: 0 or 1.
    pub closed spec fn parity(&self) -> nat {
        self.index as nat
    }

    /// The grid that reads see, row by row.
    pub closed spec fn live(&self) -> Seq<Cell> {
        if self.index == 0 {
            self.buf1.grid()
        } else {
            self.buf2.grid()
        }
    }

    /// The kinetic constants, row by row.
    pub closed spec fn rates(&self) -> Seq<ReactionDiffusionRates> {
        self.buf1.constants()
    }

    /// Every grid point has a cell.
    pub open spec fn cells_seeded(&self) -> bool {
        self.live().len() == self.width() * self.height()
    }

    /// Every grid point has its kinetic constants.
    pub open spec fn rates_seeded(&self) -> bool {
        self.rates().len() == self.width() * self.height()
    }

    /// Both buffers have the same size and constants, the staging buffer is
    /// as long as the live one, each grid and constants array is empty or
    /// full, the stencil is the Laplacian, and every live cell lies in
    /// `[0, ONE]`.
    pub closed spec fn wf(&self) -> bool {
        let n = self.width() * self.height();
        &&& n <= usize::MAX
        &&& self.buf2.width() == self.width()
        &&& self.buf2.height() == self.height()
        &&& self.index < 2
        &&& self.conv3x3 == laplacian_kernel()
        &&& self.buf2.constants() == self.buf1.constants()
        &&& self.buf2.grid().len() == self.buf1.grid().len()
        &&& (self.buf1.grid().len() == 0 || self.buf1.grid().len() == n)
        &&& (self.buf1.constants().len() == 0 || self.buf1.constants().len() == n)
        &&& forall|i: int| 0 <= i < self.live().len() ==> (#[trigger] self.live()[i]).in_unit_range()
    }

    /// An unseeded dish for a `width`×`height` grid.
    pub fn new(width: usize, height: usize) -> (r: Self)
        requires
            width * height <= usize::MAX,
        ensures
            r.wf(),
            r.width() == width,
            r.height() == height,
            r.parity() == 0,
            r.live().len() == 0,
            r.rates().len() == 0,
    {
        let buf1 = Mixture::new(width, height);
        let buf2 = Mixture::new(width, height);
        assert(buf2.constants() =~= buf1.constants());
        PetriDish { buf1, buf2, index: 0, conv3x3: laplacian() }
    }

    /// Fills every grid point of both buffers with `seed_fn(x, y)`: the
    /// first buffer is filled and the second made a copy of it, so that both
    /// start identical.
    pub fn seed_cells<F>(&mut self, seed_fn: F) -> (r: &mut Self) where F: Fn(usize, usize) -> Cell
        requires
            old(self).wf(),
            forall|x: usize, y: usize|
                x < old(self).width() && y < old(self).height() ==> #[trigger] seed_fn.requires((x, y)),
        ensures
            r.wf(),
            r.width() == old(self).width(),
            r.height() == old(self).height(),
            r.parity() == old(self).parity(),
            r.rates() == old(self).rates(),
            seeded_from(r.live(), r.width(), r.height(), seed_fn),
            *final(self) == *final(r),
    {
        self.buf1.populate(seed_fn);
        self.buf2.clone_grid_from(&self.buf1);
        self
    }

    /// Gives every grid point of both buffers the constants
    /// `seed_fn(x, y)`, filled once and copied.
    pub fn seed_rdks<F>(&mut self, seed_fn: F) -> (r: &mut Self) where
        F: Fn(usize, usize) -> ReactionDiffusionRates,
        requires
            old(self).wf(),
            forall|x: usize, y: usize|
                x < old(self).width() && y < old(self).height() ==> #[trigger] seed_fn.requires((x, y)),
        ensures
            r.wf(),
            r.width() == old(self).width(),
            r.height() == old(self).height(),
            r.parity() == old(self).parity(),
            r.live() == old(self).live(),
            rates_seeded_from(r.rates(), r.width(), r.height(), seed_fn),
            *final(self) == *final(r),
    {
        self.buf1.populate_constants(seed_fn);
        self.buf2.clone_constants_from(&self.buf1);
        assert(self.live() == old(self).live());
        self
    }

    /// Advances the run by one tick: the staging buffer receives the next
    /// generation of the live one and becomes live. Before both cells and
    /// constants are seeded, nothing changes and the missing part is
    /// reported.
    pub fn update(&mut self) -> (r: Result<(), DishError>)
        requires
            old(self).wf(),
        ensures
            update_outcome(*old(self), *final(self), r),
    {
        if !self.get_current_buffer().has_full_grid() {
            return Err(DishError::CellsNotSeeded);
        }
        if !self.buf1.has_full_constants() {
            return Err(DishError::RatesNotSeeded);
        }
        proof {
            crate::mixture::lemma_next_generation_in_unit_range(
                self.live(),
                self.rates(),
                self.width() as int,
                self.height() as int,
                self.conv3x3,
            );
        }
        if self.index == 0 {
            self.buf2.update(&self.buf1, &self.conv3x3);
        } else {
            self.buf1.update(&self.buf2, &self.conv3x3);
        }
        self.index = 1 - self.index;
        Ok(())
    }

    /// Which of the two buffers is live: 0 or 1.
    pub fn parity_bit(&self) -> (r: usize)
        ensures
            r == self.parity(),
    {
        self.index
    }

    /// The live cell at column `x`, row `y`; none outside the grid or
    /// before seeding.
    pub fn get_cell(&self, x: usize, y: usize) -> (r: Option<Cell>)
        requires
            self.wf(),
        ensures
            r == cell_at(self.live(), self.width() as int, self.height() as int, x as int, y as int),
    {
        self.get_current_buffer().at_xy(x, y)
    }

    /// Walks the live grid row by row, from a fresh start on every call.
    pub fn iter(&self) -> (r: std::slice::Iter<'_, Cell>)
        requires
            self.wf(),
        ensures
            r.remaining() == self.live().as_ref(),
    {
        self.get_current_buffer().iter()
    }

    fn get_current_buffer(&self) -> (r: &Mixture)
        requires
            self.wf(),
        ensures
            r.grid() == self.live(),
            r.width() == self.width(),
            r.height() == self.height(),
    {
        if self.index == 0 {
            &self.buf1
        } else {
            &self.buf2
        }
    }
}

} // verus!
