//! Fixed-digit-length draws, and the width-narrowed variants.
//!
//! A request for a number of `length` decimal digits becomes one bounds
//! table lookup and one rejection-sampler draw over the resulting range.
//! The width-narrowed variants clamp the length to what their output type
//! can hold and redraw while the value exceeds the type's maximum — the
//! contracts show the redraw never fires, because the table already clamps
//! the upper bound to that maximum.

use vstd::prelude::*;

use crate::bounds::{bounds_lower, bounds_upper, clamped_len, lemma_ten_pow_table, usize_digits, NumType};
use crate::engine::Acorn;
use crate::sampler::range_draw_post;

verus! {

/// The contract of one fixed-length draw: a sampling request over the range
/// the bounds table gives for `len` and `t`.
pub open spec fn fixed_length_post(pre: Acorn, post: Acorn, len: int, t: NumType, r: int) -> bool {
    range_draw_post(pre, post, bounds_lower(len), bounds_upper(len, t), r)
}

impl Acorn {
    /// Draw a number of `length` decimal digits (clamped to `[1, 39]`) for
    /// the given target width.
    pub fn generate_fixed_length_number(&mut self, length: usize, num_type: &NumType) -> (r: u128)
        requires
            old(self).wf(),
        ensures
            final(self).wf(),
            fixed_length_post(
                *old(self),
                *final(self),
                clamped_len(length as int, 1, 39),
                *num_type,
                r as int,
            ),
    {
        let length: usize = if length < 1 {
            1
        } else if length > 39 {
            39
        } else {
            length
        };
        let (lower_bound, upper_bound): (u128, u128) = Acorn::generate_bounds(length, num_type);
        self.generate_number_between_range(lower_bound, upper_bound)
    }

    /// Draw a random `usize` of a fixed digit length.
    ///
    /// The length is clamped to the number of digits `usize::MAX` has on
    /// this platform (10 on 32-bit targets, 20 on 64-bit ones), the table
    /// clamps the upper bound to `usize::MAX` at that length, and the value
    /// is cast down without loss.
    pub fn generate_fixed_length_usize(&mut self, length: usize) -> (r: usize)
        requires
            old(self).wf(),
        ensures
            final(self).wf(),
            fixed_length_post(
                *old(self),
                *final(self),
                clamped_len(length as int, 1, usize_digits()),
                NumType::Usize,
                r as int,
            ),
    {
        let ghost pre = *self;
        let cap: usize = if usize::MAX as u128 == 4294967295 {
            10
        } else {
            20
        };
        let length: usize = if length < 1 {
            1
        } else if length > cap {
            cap
        } else {
            length
        };
        proof {
            lemma_ten_pow_table();
        }
        let mut number: u128 = self.generate_fixed_length_number(length, &NumType::Usize);
        while number > usize::MAX as u128
            invariant
                self.wf(),
                number <= usize::MAX as u128,
                fixed_length_post(pre, *self, length as int, NumType::Usize, number as int),
            decreases number,
        {
            number = self.generate_fixed_length_number(length, &NumType::Usize);
        }
        number as usize
    }

    /// Draw a random `u8` of a fixed digit length.
    ///
    /// The length is clamped to `[1, 3]` because `u8::MAX` is 3 digits long.
    pub fn generate_fixed_length_u8(&mut self, length: usize) -> (r: u8)
        requires
            old(self).wf(),
        ensures
            final(self).wf(),
            fixed_length_post(
                *old(self),
                *final(self),
                clamped_len(length as int, 1, 3),
                NumType::U8,
                r as int,
            ),
    {
        let ghost pre = *self;
        let length: usize = if length < 1 {
            1
        } else if length > 3 {
            3
        } else {
            length
        };
        proof {
            lemma_ten_pow_table();
        }
        let mut number: u128 = self.generate_fixed_length_number(length, &NumType::U8);
        while number > 255
            invariant
                self.wf(),
                number <= 255,
                fixed_length_post(pre, *self, length as int, NumType::U8, number as int),
            decreases number,
        {
            number = self.generate_fixed_length_number(length, &NumType::U8);
        }
        number as u8
    }

    /// Draw a random `u16` of a fixed digit length.
    ///
    /// The length is clamped to `[1, 5]` because `u16::MAX` is 5 digits
    /// long.
    pub fn generate_fixed_length_u16(&mut self, length: usize) -> (r: u16)
        requires
            old(self).wf(),
        ensures
            final(self).wf(),
            fixed_length_post(
                *old(self),
                *final(self),
                clamped_len(length as int, 1, 5),
                NumType::U16,
                r as int,
            ),
    {
        let ghost pre = *self;
        let length: usize = if length < 1 {
            1
        } else if length > 5 {
            5
        } else {
            length
        };
        proof {
            lemma_ten_pow_table();
        }
        let mut number: u128 = self.generate_fixed_length_number(length, &NumType::U16);
        while number > 65535
            invariant
                self.wf(),
                number <= 65535,
                fixed_length_post(pre, *self, length as int, NumType::U16, number as int),
            decreases number,
        {
            number = self.generate_fixed_length_number(length, &NumType::U16);
        }
        number as u16
    }

    /// Draw a random `u32` of a fixed digit length.
    ///
    /// The length is clamped to `[1, 10]` because `u32::MAX` is 10 digits
    /// long.
    pub fn generate_fixed_length_u32(&mut self, length: usize) -> (r: u32)
        requires
            old(self).wf(),
        ensures
            final(self).wf(),
            fixed_length_post(
                *old(self),
                *final(self),
                clamped_len(length as int, 1, 10),
                NumType::U32,
                r as int,
            ),
    {
        let ghost pre = *self;
        let length: usize = if length < 1 {
            1
        } else if length > 10 {
            10
        } else {
            length
        };
        proof {
            lemma_ten_pow_table();
        }
        let mut number: u128 = self.generate_fixed_length_number(length, &NumType::U32);
        while number > 4294967295
            invariant
                self.wf(),
                number <= 4294967295,
                fixed_length_post(pre, *self, length as int, NumType::U32, number as int),
            decreases number,
        {
            number = self.generate_fixed_length_number(length, &NumType::U32);
        }
        number as u32
    }

    /// Draw a random `u64` of a fixed digit length.
    ///
    /// The length is clamped to `[1, 20]` because `u64::MAX` is 20 digits
    /// long.
    pub fn generate_fixed_length_u64(&mut self, length: usize) -> (r: u64)
        requires
            old(self).wf(),
        ensures
            final(self).wf(),
            fixed_length_post(
                *old(self),
                *final(self),
                clamped_len(length as int, 1, 20),
                NumType::U64,
                r as int,
            ),
    {
        let ghost pre = *self;
        let length: usize = if length < 1 {
            1
        } else if length > 20 {
            20
        } else {
            length
        };
        proof {
            lemma_ten_pow_table();
        }
        let mut number: u128 = self.generate_fixed_length_number(length, &NumType::U64);
        while number > 18446744073709551615
            invariant
                self.wf(),
                number <= 18446744073709551615,
                fixed_length_post(pre, *self, length as int, NumType::U64, number as int),
            decreases number,
        {
            number = self.generate_fixed_length_number(length, &NumType::U64);
        }
        number as u64
    }

    /// Draw a random `u128` of a fixed digit length (clamped to `[1, 39]`).
    pub fn generate_fixed_length_u128(&mut self, length: usize) -> (r: u128)
        requires
            old(self).wf(),
        ensures
            final(self).wf(),
            fixed_length_post(
                *old(self),
                *final(self),
                clamped_len(length as int, 1, 39),
                NumType::U128,
                r as int,
            ),
    {
        self.generate_fixed_length_number(length, &NumType::U128)
    }
}

} // verus!
