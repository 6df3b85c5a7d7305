//! The two-species concentration state of one grid point, and the kinetic
//! constants that drive it.

use vstd::prelude::*;

verus! {

/// Fixed-point unit: a concentration or rate of `ONE` stands for 1.0.
pub const ONE: u32 = 1_000_000;

/// Largest value of the byte that a cell maps to.
pub const BYTE_MAX: u32 = 255;

/// `v` clipped into `[0, ONE]`.
pub open spec fn clip(v: int) -> int {
    if v < 0 {
        0
    } else if v > ONE {
        ONE as int
    } else {
        v
    }
}

/// The proportion `b / (a + b)` mapped linearly onto `0..=255`, rounded
/// down; an empty cell (`a + b == 0`) maps to 0.
pub open spec fn byte_of(a: int, b: int) -> int {
    if a + b == 0 {
        0
    } else {
        (BYTE_MAX * b) / (a + b)
    }
}

/// Concentrations `a` and `b` of the two species, each in `[0, ONE]`.
#[derive(Clone, Copy, PartialEq, Eq, Structural, Debug)]
pub struct Cell {
    a: u32,
    b: u32,
}

impl Cell {
    /// Concentration of species A, in millionths.
    pub closed spec fn spec_a(&self) -> u32 {
        self.a
    }

    /// Concentration of species B, in millionths.
    pub closed spec fn spec_b(&self) -> u32 {
        self.b
    }

    /// Both concentrations lie in `[0, ONE]`; every cell that exists at run
    /// time satisfies this.
    #[verifier::type_invariant]
    pub open spec fn in_unit_range(&self) -> bool {
        self.a() <= ONE && self.b() <= ONE
    }

    /// The cell whose concentrations are `a` and `b` clipped into `[0, ONE]`.
    pub closed spec fn clipped(a: int, b: int) -> Cell {
        Cell { a: clip(a) as u32, b: clip(b) as u32 }
    }

    /// A clipped cell holds the clipped values and lies in `[0, ONE]`.
    pub broadcast proof fn lemma_clipped(a: int, b: int)
        ensures
            (#[trigger] Cell::clipped(a, b)).a() == clip(a),
            Cell::clipped(a, b).b() == clip(b),
            Cell::clipped(a, b).in_unit_range(),
    {
    }

    /// Two cells are equal exactly when their concentrations are.
    pub broadcast proof fn lemma_eq(c: Cell, d: Cell)
        ensures
            #![trigger c.a(), d.a()]
            (c.a() == d.a() && c.b() == d.b()) <==> c == d,
    {
    }

    /// Concentration of species A.
    #[verifier::when_used_as_spec(spec_a)]
    pub fn a(&self) -> (r: u32)
        ensures
            r == self.a(),
            r <= ONE,
    {
        proof {
            use_type_invariant(self);
        }
        self.a
    }

    /// Concentration of species B.
    #[verifier::when_used_as_spec(spec_b)]
    pub fn b(&self) -> (r: u32)
        ensures
            r == self.b(),
            r <= ONE,
    {
        proof {
            use_type_invariant(self);
        }
        self.b
    }

    fn clip_value(value: i64) -> (r: u32)
        ensures
            r == clip(value as int),
    {
        if value < 0 {
            0
        } else if value > ONE as i64 {
            ONE
        } else {
            value as u32
        }
    }

    /// A cell with both concentrations clipped into `[0, ONE]`.
    pub fn new(a: i64, b: i64) -> (r: Self)
        ensures
            r == Cell::clipped(a as int, b as int),
            r.a() == clip(a as int),
            r.b() == clip(b as int),
    {
        Cell { a: Self::clip_value(a), b: Self::clip_value(b) }
    }

    /// The share of species B, `b / (a + b)`, as a byte for display; a cell
    /// holding neither species gives 0.
    pub fn to_u8(&self) -> (r: u8)
        ensures
            r == byte_of(self.a() as int, self.b() as int),
    {
        let a = self.a() as u64;
        let b = self.b() as u64;
        let total = a + b;
        if total == 0 {
            0
        } else {
            let scaled = BYTE_MAX as u64 * b;
            proof {
                vstd::arithmetic::mul::lemma_mul_inequality(b as int, total as int, BYTE_MAX as int);
                vstd::arithmetic::div_mod::lemma_div_is_ordered(
                    scaled as int,
                    BYTE_MAX * total,
                    total as int,
                );
                vstd::arithmetic::div_mod::lemma_div_by_multiple(BYTE_MAX as int, total as int);
            }
            (scaled / total) as u8
        }
    }

    /// Hands both concentrations to `map_fn` and returns what it makes of them.
    pub fn map<F, T>(&self, map_fn: F) -> (r: T) where F: Fn(u32, u32) -> T
        requires
            map_fn.requires((self.a(), self.b())),
        ensures
            map_fn.ensures((self.a(), self.b()), r),
    {
        map_fn(self.a(), self.b())
    }
}

impl Default for Cell {
    /// The quiescent background: all species A, no species B.
    fn default() -> (r: Self)
        ensures
            r.a() == ONE,
            r.b() == 0,
    {
        Cell { a: ONE, b: 0 }
    }
}

/// Kinetic constants of one grid point, in millionths: diffusion rates of the
/// two species, feed rate of A and kill rate of B.
#[derive(Clone, Copy, PartialEq, Eq, Structural, Debug)]
pub struct ReactionDiffusionRates {
    pub da: u32,
    pub db: u32,
    pub feed_rate: u32,
    pub kill_rate: u32,
}

impl Default for ReactionDiffusionRates {
    /// The canonical Gray-Scott setting: `da = 1.0`, `db = 0.5`,
    /// `feed = 0.055`, `kill = 0.062`.
    fn default() -> (r: Self)
        ensures
            r.da == 1_000_000,
            r.db == 500_000,
            r.feed_rate == 55_000,
            r.kill_rate == 62_000,
    {
        ReactionDiffusionRates { da: 1_000_000, db: 500_000, feed_rate: 55_000, kill_rate: 62_000 }
    }
}

} // verus!
