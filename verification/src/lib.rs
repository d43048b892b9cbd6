//! Aggregation for streaming SQL.
//!
//! A `GROUP BY` aggregation is described by an
//! [`operators::AggregateProjection`]: aggregate functions over input
//! expressions, and grouping columns. This crate derives the schema of its
//! output and decides whether it can be computed in two phases, that is,
//! whether rows can be folded into partial states ("bins") that combine in
//! any order. Every aggregate but `COUNT(DISTINCT ..)` can.
//!
//! For an aggregation in two phases
//! ([`two_phase_projection::TwoPhaseAggregateProjection`]) the crate gives
//! the types of bins and of memory and carries out the operations on them:
//! folding a row into a bin, combining bins, and finalizing a bin for a
//! tumbling window; adding a bin to memory, removing an expired bin from
//! it, and finalizing memory for a sliding window.
//!
//! Scalar expressions are not evaluated here. The operations take the
//! values that the input expressions yield, as signed 64-bit integers with
//! `None` for null, and records are built as lists of assignments that
//! name the expression each field comes from. Sums and counts wrap around,
//! and the quotient of an average is left undivided.
//!
//! The operations are verified against the models in [`bins`] and
//! [`memory`], and [`laws`] proves what holds between them.

pub mod bins;
pub mod coercion;
pub mod expressions;
pub mod laws;
pub mod memory;
pub mod multiset;
pub mod operators;
pub mod records;
pub mod two_phase;
pub mod two_phase_projection;
pub mod types;
