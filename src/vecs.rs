//! Structure-of-arrays containers.
mod vec1;
mod vec2;

pub use vec1::Vec1;
pub use vec2::Vec2;
