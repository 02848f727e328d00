//! Columnar (structure-of-arrays) vector arithmetic with dimensional unit tags.
//!
//! `Vec1` and `Vec2` hold parallel arrays of scalars and of 2-component vectors.
//! Their zip combinators apply a per-element function position by position,
//! and the arithmetic methods built on them are proved element by element
//! against the `AddSpec`/`SubSpec`/`MulSpec`/`DivSpec` models of the element type.
//! `Typed` attaches a zero-sized unit tag to a value so that unit mismatches
//! are rejected by the type checker.
pub mod ops;
pub mod physics;
pub mod units;
pub mod vecs;
