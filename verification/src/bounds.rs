//! The bounds table: the inclusive numeric range a decimal digit length
//! stands for.
//!
//! Length `l` maps to `[10^(l-1), 10^l - 1]`, with two exceptions: length 1
//! maps to `[0, 9]` so zero can be generated, and length 39 tops out at
//! `u128::MAX` instead of overflowing past it.  When the caller aims at a
//! narrower output type, the upper bound at the digit length of that type's
//! maximum is clamped to the actual maximum, so that rejection sampling
//! converges instead of looping on unrepresentable values.

use vstd::prelude::*;

use crate::engine::Acorn;

verus! {

/// The output width a draw is destined for; it decides where the bounds
/// table clamps its upper ends.
#[derive(PartialEq, Eq, Structural)]
pub enum NumType {
    /// A pointer-sized result.
    Usize,
    /// An 8-bit result.
    U8,
    /// A 16-bit result.
    U16,
    /// A 32-bit result.
    U32,
    /// A 64-bit result.
    U64,
    /// A 128-bit result.
    U128,
}

/// Ten to the `n`-th power.
pub open spec fn ten_pow(n: nat) -> int
    decreases n,
{
    if n == 0 {
        1
    } else {
        10 * ten_pow((n - 1) as nat)
    }
}

/// Clamp `x` into `[lo, hi]`.
pub open spec fn clamped_len(x: int, lo: int, hi: int) -> int {
    if x < lo {
        lo
    } else if x > hi {
        hi
    } else {
        x
    }
}

/// The lower end of the range a digit length stands for.
pub open spec fn bounds_lower(len: int) -> int {
    if len <= 1 {
        0
    } else {
        ten_pow((len - 1) as nat)
    }
}

/// The number of decimal digits of the platform's `usize::MAX`: 10 where
/// `usize` is 32 bits wide, 20 where it is 64.
pub open spec fn usize_digits() -> int {
    if usize::MAX as int == 4294967295 {
        10
    } else {
        20
    }
}

/// The upper end of the range a digit length stands for, clamped for the
/// target output width where its maximum falls inside that length.
pub open spec fn bounds_upper(len: int, t: NumType) -> int {
    if len == 3 && t == NumType::U8 {
        255
    } else if len == 5 && t == NumType::U16 {
        65535
    } else if len == 10 && (t == NumType::U32 || (t == NumType::Usize && usize::MAX as int
        == 4294967295)) {
        4294967295
    } else if len == 20 && (t == NumType::U64 || (t == NumType::Usize && usize::MAX as int
        != 4294967295)) {
        18446744073709551615
    } else if len >= 39 {
        340282366920938463463374607431768211455
    } else {
        ten_pow(len as nat) - 1
    }
}

/// Concrete values of the powers of ten the bounds table is built from.
pub proof fn lemma_ten_pow_table()
    ensures
        ten_pow(0) == 1,
        ten_pow(1) == 10,
        ten_pow(2) == 100,
        ten_pow(3) == 1000,
        ten_pow(4) == 10000,
        ten_pow(5) == 100000,
        ten_pow(6) == 1000000,
        ten_pow(7) == 10000000,
        ten_pow(8) == 100000000,
        ten_pow(9) == 1000000000,
        ten_pow(10) == 10000000000,
        ten_pow(11) == 100000000000,
        ten_pow(12) == 1000000000000,
        ten_pow(13) == 10000000000000,
        ten_pow(14) == 100000000000000,
        ten_pow(15) == 1000000000000000,
        ten_pow(16) == 10000000000000000,
        ten_pow(17) == 100000000000000000,
        ten_pow(18) == 1000000000000000000,
        ten_pow(19) == 10000000000000000000,
        ten_pow(20) == 100000000000000000000,
        ten_pow(21) == 1000000000000000000000,
        ten_pow(22) == 10000000000000000000000,
        ten_pow(23) == 100000000000000000000000,
        ten_pow(24) == 1000000000000000000000000,
        ten_pow(25) == 10000000000000000000000000,
        ten_pow(26) == 100000000000000000000000000,
        ten_pow(27) == 1000000000000000000000000000,
        ten_pow(28) == 10000000000000000000000000000,
        ten_pow(29) == 100000000000000000000000000000,
        ten_pow(30) == 1000000000000000000000000000000,
        ten_pow(31) == 10000000000000000000000000000000,
        ten_pow(32) == 100000000000000000000000000000000,
        ten_pow(33) == 1000000000000000000000000000000000,
        ten_pow(34) == 10000000000000000000000000000000000,
        ten_pow(35) == 100000000000000000000000000000000000,
        ten_pow(36) == 1000000000000000000000000000000000000,
        ten_pow(37) == 10000000000000000000000000000000000000,
        ten_pow(38) == 100000000000000000000000000000000000000,
{
    reveal_with_fuel(ten_pow, 40);
}

impl Acorn {
    /// Look up the inclusive range that digit length `length` stands for,
    /// clamped for the target output width.
    pub fn generate_bounds(length: usize, num_type: &NumType) -> (r: (u128, u128))
        requires
            1 <= length <= 39,
        ensures
            r.0 as int == bounds_lower(length as int),
            r.1 as int == bounds_upper(length as int, *num_type),
            r.0 <= r.1,
    {
        proof {
            lemma_ten_pow_table();
        }
        match length {
            1 => (0, 9),
            2 => (10, 99),
            3 => (100, if *num_type == NumType::U8 { 255 } else { 999 }),
            4 => (1000, 9999),
            5 => (10000, if *num_type == NumType::U16 { 65535 } else { 99999 }),
            6 => (100000, 999999),
            7 => (1000000, 9999999),
            8 => (10000000, 99999999),
            9 => (100000000, 999999999),
            10 => (
                1000000000,
                if *num_type == NumType::U32 || (*num_type == NumType::Usize && usize::MAX as u128 == 4294967295) {
                    4294967295
                } else {
                    9999999999
                },
            ),
            11 => (10000000000, 99999999999),
            12 => (100000000000, 999999999999),
            13 => (1000000000000, 9999999999999),
            14 => (10000000000000, 99999999999999),
            15 => (100000000000000, 999999999999999),
            16 => (1000000000000000, 9999999999999999),
            17 => (10000000000000000, 99999999999999999),
            18 => (100000000000000000, 999999999999999999),
            19 => (1000000000000000000, 9999999999999999999),
            20 => (
                10000000000000000000,
                if *num_type == NumType::U64 || (*num_type == NumType::Usize && usize::MAX as u128 != 4294967295) {
                    18446744073709551615
                } else {
                    99999999999999999999
                },
            ),
            21 => (100000000000000000000, 999999999999999999999),
            22 => (1000000000000000000000, 9999999999999999999999),
            23 => (10000000000000000000000, 99999999999999999999999),
            24 => (100000000000000000000000, 999999999999999999999999),
            25 => (1000000000000000000000000, 9999999999999999999999999),
            26 => (10000000000000000000000000, 99999999999999999999999999),
            27 => (100000000000000000000000000, 999999999999999999999999999),
            28 => (1000000000000000000000000000, 9999999999999999999999999999),
            29 => (10000000000000000000000000000, 99999999999999999999999999999),
            30 => (100000000000000000000000000000, 999999999999999999999999999999),
            31 => (1000000000000000000000000000000, 9999999999999999999999999999999),
            32 => (10000000000000000000000000000000, 99999999999999999999999999999999),
            33 => (100000000000000000000000000000000, 999999999999999999999999999999999),
            34 => (1000000000000000000000000000000000, 9999999999999999999999999999999999),
            35 => (10000000000000000000000000000000000, 99999999999999999999999999999999999),
            36 => (100000000000000000000000000000000000, 999999999999999999999999999999999999),
            37 => (1000000000000000000000000000000000000, 9999999999999999999999999999999999999),
            38 => (10000000000000000000000000000000000000, 99999999999999999999999999999999999999),
            39 => (100000000000000000000000000000000000000, 340282366920938463463374607431768211455),
            _ => (0, 9),
        }
    }
}

} // verus!
