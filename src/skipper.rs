//! A counter that walks from a start value towards a bound in fixed steps.

use std::cmp::Ordering;
use std::ops::Add;
use vstd::prelude::*;
use vstd::std_specs::cmp::PartialOrdSpec;
use vstd::std_specs::convert::FromSpec;
use vstd::std_specs::ops::AddSpec;

verus! {

/// Yields `start`, `start + skip`, `start + 2 * skip`, ... for as long as the
/// *following* value would still lie on this side of `max` (at or below it for
/// a non-negative step, at or above it for a negative one).
#[derive(Debug)]
#[verifier::reject_recursive_types(T)]
pub struct Skipper<T> where T: Copy + Add<Output = T> + PartialOrd {
    current: T,
    max: T,
    skip: T,
}

/// `a <= b` in the order that `T` declares.
pub open spec fn at_most<T: PartialOrd>(a: T, b: T) -> bool {
    a.partial_cmp_spec(&b) matches Some(Ordering::Less | Ordering::Equal)
}

/// `a >= b` in the order that `T` declares.
pub open spec fn at_least<T: PartialOrd>(a: T, b: T) -> bool {
    a.partial_cmp_spec(&b) matches Some(Ordering::Greater | Ordering::Equal)
}

/// Whether `T`'s `+`, `PartialOrd` and `From<i8>` follow their specifications.
pub open spec fn well_behaved<T>() -> bool where T: Add<Output = T> + PartialOrd + From<i8> {
    &&& T::obeys_add_spec()
    &&& T::obeys_partial_cmp_spec()
    &&& <T as FromSpec<i8>>::obeys_from_spec()
}

/// What one step yields from `current`: `current` itself when the value after
/// it, `current + skip`, has not passed `max`.
pub open spec fn step_value<T>(current: T, skip: T, max: T) -> Option<T> where
    T: Add<Output = T> + PartialOrd + From<i8>,
 {
    let after = current.add_spec(skip);
    let backwards = skip.partial_cmp_spec(&T::from_spec(0i8)) == Some(Ordering::Less);
    if (backwards && at_least(after, max)) || (!backwards && at_most(after, max)) {
        Some(current)
    } else {
        None
    }
}

impl<T> Skipper<T> where T: Copy + Add<Output = T> + PartialOrd {
    /// The value the next step starts from.
    pub closed spec fn current(&self) -> T {
        self.current
    }

    /// The bound that a yielded value's successor may not pass.
    pub closed spec fn max(&self) -> T {
        self.max
    }

    /// The step added after every call of `next`.
    pub closed spec fn skip(&self) -> T {
        self.skip
    }

    pub fn new(start: T, skip: T, max: T) -> (r: Self)
        ensures
            r.current() == start,
            r.skip() == skip,
            r.max() == max,
    {
        Skipper { current: start, skip, max }
    }
}

impl<T> Skipper<T> where T: Copy + Add<Output = T> + PartialOrd + From<i8> {
    /// Returns the current value if its successor stays within `max`, and
    /// moves on by `skip` in either case.
    pub fn next(&mut self) -> (r: Option<T>)
        requires
            old(self).current().add_req(old(self).skip()),
        ensures
            final(self).skip() == old(self).skip(),
            final(self).max() == old(self).max(),
            T::obeys_add_spec() ==> final(self).current() == old(self).current().add_spec(
                old(self).skip(),
            ),
            well_behaved::<T>() ==> r == step_value(
                old(self).current(),
                old(self).skip(),
                old(self).max(),
            ),
    {
        let after = self.current + self.skip;
        let zero = T::from(0i8);
        let ret = if self.skip < zero {
            if after >= self.max {
                Some(self.current)
            } else {
                None
            }
        } else if after <= self.max {
            Some(self.current)
        } else {
            None
        };
        self.current = after;
        ret
    }
}

} // verus!
