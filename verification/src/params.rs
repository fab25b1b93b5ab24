//! Validated construction parameters for the generator.
//!
//! Both parameters clamp out-of-range requests instead of rejecting them,
//! so construction never fails.

use vstd::prelude::*;

verus! {

/// Smallest accepted recurrence order.
pub const ORDER_MIN: usize = 45;

/// Largest accepted recurrence order.
pub const ORDER_MAX: usize = 65535;

/// Smallest accepted seed value.
pub const SEED_MIN: u128 = 1000000;

/// The value an out-of-range order request is clamped to.
pub open spec fn clamped_order(x: int) -> int {
    if x < ORDER_MIN as int {
        ORDER_MIN as int
    } else if x > ORDER_MAX as int {
        ORDER_MAX as int
    } else {
        x
    }
}

/// The value an out-of-range seed request is clamped to.
pub open spec fn clamped_seed(x: int) -> int {
    if x < SEED_MIN as int {
        SEED_MIN as int
    } else {
        x
    }
}

/// The order used for the ACORN recurrence: the depth of the history the
/// generator keeps.  Construction clamps the request into
/// `[ORDER_MIN, ORDER_MAX]`.
#[derive(Debug, PartialEq, Eq)]
pub struct Order(pub usize);

impl Order {
    /// Create a new `Order` for constructing a generator.
    ///
    /// The input is clamped between `ORDER_MIN` and `ORDER_MAX` rather than
    /// rejected.
    #[must_use]
    pub fn new(input: usize) -> (r: Self)
        ensures
            r.0 == clamped_order(input as int),
            ORDER_MIN <= r.0 <= ORDER_MAX,
    {
        if input < ORDER_MIN {
            Order(ORDER_MIN)
        } else if input > ORDER_MAX {
            Order(ORDER_MAX)
        } else {
            Order(input)
        }
    }
}

/// The seed the ACORN recurrence starts from.  Construction clamps the
/// request into `[SEED_MIN, u128::MAX]`.
#[derive(Debug, PartialEq, Eq)]
pub struct Seed(pub u128);

impl Seed {
    /// Create a new `Seed` for constructing a generator.
    ///
    /// The input is clamped between `SEED_MIN` and `u128::MAX` rather than
    /// rejected.
    #[must_use]
    pub fn new(input: u128) -> (r: Self)
        ensures
            r.0 == clamped_seed(input as int),
            SEED_MIN <= r.0,
    {
        if input < SEED_MIN {
            Seed(SEED_MIN)
        } else {
            Seed(input)
        }
    }
}

} // verus!
