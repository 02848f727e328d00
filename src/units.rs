//! Zero-sized unit tags and the rules by which they compose.
use vstd::prelude::*;

use core::ops::{Div, Mul};

verus! {

/// A dimensional unit, named at compile time.
pub trait Unit {
    /// A short printable symbol for the unit, where it has one.
    fn symbol() -> Option<&'static str>;
}

impl Unit for () {
    fn symbol() -> Option<&'static str> {
        None
    }
}

#[derive(Debug, Default, Clone, Copy, PartialEq, Eq, Structural)]
pub struct Meters;

impl Unit for Meters {
    fn symbol() -> Option<&'static str> {
        Some("m")
    }
}

#[derive(Debug, Default, Clone, Copy, PartialEq, Eq, Structural)]
pub struct Seconds;

impl Unit for Seconds {
    fn symbol() -> Option<&'static str> {
        Some("s")
    }
}

#[derive(Debug, Default, Clone, Copy, PartialEq, Eq, Structural)]
pub struct MetersPerSecond;

impl Unit for MetersPerSecond {
    fn symbol() -> Option<&'static str> {
        Some("m/s")
    }
}

/// Meters divided by seconds are meters per second.
impl Div<Seconds> for Meters {
    type Output = MetersPerSecond;

    fn div(self, rhs: Seconds) -> (r: MetersPerSecond) {
        MetersPerSecond
    }
}

impl vstd::std_specs::ops::DivSpecImpl<Seconds> for Meters {
    open spec fn obeys_div_spec() -> bool {
        true
    }

    open spec fn div_req(self, rhs: Seconds) -> bool {
        true
    }

    open spec fn div_spec(self, rhs: Seconds) -> MetersPerSecond {
        MetersPerSecond
    }
}

/// Meters per second times seconds are meters.
impl Mul<Seconds> for MetersPerSecond {
    type Output = Meters;

    fn mul(self, rhs: Seconds) -> (r: Meters) {
        Meters
    }
}

impl vstd::std_specs::ops::MulSpecImpl<Seconds> for MetersPerSecond {
    open spec fn obeys_mul_spec() -> bool {
        true
    }

    open spec fn mul_req(self, rhs: Seconds) -> bool {
        true
    }

    open spec fn mul_spec(self, rhs: Seconds) -> Meters {
        Meters
    }
}

} // verus!
