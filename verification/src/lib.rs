//! Additive Congruential Random Number (ACORN) generator.
//!
//! A deterministic pseudo-random number generator built on the ACORN
//! recurrence over the fixed modulus `2^120`.  A generator is constructed
//! from an [`Order`] (the recurrence depth) and a [`Seed`]; the same pair
//! always produces the same sequence of outputs, which makes the generator
//! suitable for simulation, procedural generation and testing.  The numbers
//! it produces are not cryptographically secure.
//!
//! The crate is laid out by component: [`params`] validates construction
//! parameters, [`engine`] advances the recurrence, [`bounds`] maps digit
//! lengths to inclusive ranges, [`powers`] and [`sampler`] implement
//! power-of-two rejection sampling, [`lengths`] and [`ranges`] hold the
//! public draw families, and [`selector`] picks fairly among candidates.

pub mod bounds;
pub mod engine;
pub mod lengths;
pub mod params;
pub mod powers;
pub mod ranges;
pub mod sampler;
pub mod selector;

pub use bounds::NumType;
pub use engine::Acorn;
pub use params::Order;
pub use params::Seed;
