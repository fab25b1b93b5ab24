//! Width-narrowed range draws: thin wrappers over the rejection sampler.
//!
//! Each variant widens its inclusive bounds to `u128`, draws once, and
//! narrows the result back down — which cannot lose information, because
//! the result is bounded by the range's upper end.

use vstd::prelude::*;

use crate::engine::Acorn;
use crate::sampler::range_draw_post;

verus! {

impl Acorn {
    /// Draw a random `usize` within the inclusive range `[lo, hi]`.
    pub fn generate_usize_between_range(&mut self, lo: usize, hi: usize) -> (r: usize)
        requires
            old(self).wf(),
            lo <= hi,
        ensures
            final(self).wf(),
            range_draw_post(*old(self), *final(self), lo as int, hi as int, r as int),
    {
        let start: u128 = lo as u128;
        let end: u128 = hi as u128;
        let number: u128 = self.generate_number_between_range(start, end);
        number as usize
    }

    /// Draw a random `u8` within the inclusive range `[lo, hi]`.
    pub fn generate_u8_between_range(&mut self, lo: u8, hi: u8) -> (r: u8)
        requires
            old(self).wf(),
            lo <= hi,
        ensures
            final(self).wf(),
            range_draw_post(*old(self), *final(self), lo as int, hi as int, r as int),
    {
        let start: u128 = lo as u128;
        let end: u128 = hi as u128;
        let number: u128 = self.generate_number_between_range(start, end);
        number as u8
    }

    /// Draw a random `u16` within the inclusive range `[lo, hi]`.
    pub fn generate_u16_between_range(&mut self, lo: u16, hi: u16) -> (r: u16)
        requires
            old(self).wf(),
            lo <= hi,
        ensures
            final(self).wf(),
            range_draw_post(*old(self), *final(self), lo as int, hi as int, r as int),
    {
        let start: u128 = lo as u128;
        let end: u128 = hi as u128;
        let number: u128 = self.generate_number_between_range(start, end);
        number as u16
    }

    /// Draw a random `u32` within the inclusive range `[lo, hi]`.
    pub fn generate_u32_between_range(&mut self, lo: u32, hi: u32) -> (r: u32)
        requires
            old(self).wf(),
            lo <= hi,
        ensures
            final(self).wf(),
            range_draw_post(*old(self), *final(self), lo as int, hi as int, r as int),
    {
        let start: u128 = lo as u128;
        let end: u128 = hi as u128;
        let number: u128 = self.generate_number_between_range(start, end);
        number as u32
    }

    /// Draw a random `u64` within the inclusive range `[lo, hi]`.
    pub fn generate_u64_between_range(&mut self, lo: u64, hi: u64) -> (r: u64)
        requires
            old(self).wf(),
            lo <= hi,
        ensures
            final(self).wf(),
            range_draw_post(*old(self), *final(self), lo as int, hi as int, r as int),
    {
        let start: u128 = lo as u128;
        let end: u128 = hi as u128;
        let number: u128 = self.generate_number_between_range(start, end);
        number as u64
    }

    /// Draw a random `u128` within the inclusive range `[lo, hi]`.
    pub fn generate_u128_between_range(&mut self, lo: u128, hi: u128) -> (r: u128)
        requires
            old(self).wf(),
            lo <= hi,
        ensures
            final(self).wf(),
            range_draw_post(*old(self), *final(self), lo as int, hi as int, r as int),
    {
        self.generate_number_between_range(lo, hi)
    }
}

} // verus!
