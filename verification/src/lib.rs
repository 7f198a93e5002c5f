//! State store for a box-layout engine.
//!
//! The cache holds, per UI node, the finalized output rectangle, the
//! intermediate quantities a multi-pass layout solver needs between node
//! visits, and a record of which geometric properties changed since the
//! solver's last pass.
//!
//! Verus has no floating-point arithmetic, so every scalar slot stores the
//! raw 32-bit word of an IEEE-754 single (`f32::to_bits`). The cache never
//! computes on these words, it only stores and returns them, so the bit
//! representation is a faithful model: a round trip through the cache
//! preserves every representable value, including NaN payloads.

pub mod entity;
pub mod geometry;
pub mod cache;
